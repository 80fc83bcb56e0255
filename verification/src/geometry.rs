//! Integer block and chunk geometry shared by the world-editing commands:
//! chunk coordinates, box regions and their iteration order, and checked
//! counting of the blocks or chunks a command would touch.

use vstd::prelude::*;

verus! {

/// A block position or a block offset.
#[derive(Clone, Copy, PartialEq, Eq, Debug, Structural)]
pub struct Vector3 {
    pub x: i32,
    pub y: i32,
    pub z: i32,
}

impl Vector3 {
    pub fn new(x: i32, y: i32, z: i32) -> (v: Self)
        ensures
            v == (Vector3 { x, y, z }),
    {
        Vector3 { x, y, z }
    }
}

/// The chunk that holds block coordinate `block`: `floor(block / 16)`.
pub open spec fn chunk_of(block: int) -> int {
    block / 16
}

/// The chunk of a block column is the one whose 16 columns contain it:
/// `16 c <= block < 16 c + 16`, also below zero.
pub proof fn lemma_chunk_of_contains(block: int)
    ensures
        16 * chunk_of(block) <= block < 16 * chunk_of(block) + 16,
{
}

/// A command result from a count: the count itself while it fits in `i32`,
/// `i32::MAX` above; never more than the count.
pub proof fn lemma_saturated_count(value: int)
    ensures
        saturated_count(value) <= i32::MAX,
        saturated_count(value) <= value,
        value <= i32::MAX ==> saturated_count(value) == value,
        value > i32::MAX ==> saturated_count(value) == i32::MAX,
{
}

/// Chunk coordinate of a block coordinate, as an arithmetic shift by four.
pub fn chunk_coord(block: i32) -> (c: i32)
    ensures
        c == chunk_of(block as int),
{
    let c = block >> 4u32;
    assert(c * 16 <= block && block < c * 16 + 16) by (bit_vector)
        requires
            c == block >> 4u32,
    ;
    proof {
        vstd::arithmetic::div_mod::lemma_fundamental_div_mod_converse(
            block as int,
            16,
            c as int,
            block - c * 16,
        );
    }
    c
}

/// Number of coordinates from `min` to `max` inclusive, if not negative.
pub open spec fn span_count(min: int, max: int) -> Option<nat> {
    if max - min + 1 >= 0 {
        Some((max - min + 1) as nat)
    } else {
        None
    }
}

/// `inclusive_span` in wide arithmetic: `None` when `max < min - 1`.
pub fn inclusive_span(min: i32, max: i32) -> (r: Option<u64>)
    ensures
        r matches Some(v) ==> span_count(min as int, max as int) == Some(v as nat),
        r is None ==> span_count(min as int, max as int) is None,
{
    let span: i64 = max as i64 - min as i64 + 1;
    if span < 0 {
        None
    } else {
        Some(span as u64)
    }
}

/// Blocks in the box with corners `min` and `max`, when every partial product
/// fits in a `u64`.
pub open spec fn volume_count(min: Vector3, max: Vector3) -> Option<nat> {
    match (
        span_count(min.x as int, max.x as int),
        span_count(min.y as int, max.y as int),
        span_count(min.z as int, max.z as int),
    ) {
        (Some(a), Some(b), Some(c)) => if a * b <= u64::MAX && a * b * c <= u64::MAX {
            Some(a * b * c)
        } else {
            None
        },
        _ => None,
    }
}

/// Volume of the box from `min` to `max`, with checked multiplication.
pub fn checked_region_volume(min: Vector3, max: Vector3) -> (r: Option<u64>)
    ensures
        r matches Some(v) ==> volume_count(min, max) == Some(v as nat),
        r is None ==> volume_count(min, max) is None,
{
    let sx = match inclusive_span(min.x, max.x) {
        Some(v) => v,
        None => return None,
    };
    let sy = match inclusive_span(min.y, max.y) {
        Some(v) => v,
        None => return None,
    };
    let sxy = match sx.checked_mul(sy) {
        Some(v) => v,
        None => {
            proof {
                if span_count(min.z as int, max.z as int) is Some {
                    assert(sx * sy > u64::MAX);
                }
            }
            return None;
        },
    };
    let sz = match inclusive_span(min.z, max.z) {
        Some(v) => v,
        None => return None,
    };
    sxy.checked_mul(sz)
}

/// Chunks in the rectangle of chunk coordinates `[min_x, max_x] x [min_z, max_z]`,
/// when the product fits in a `u64`.
pub open spec fn chunk_area_count(min_x: int, max_x: int, min_z: int, max_z: int) -> Option<nat> {
    match (span_count(min_x, max_x), span_count(min_z, max_z)) {
        (Some(a), Some(b)) => if a * b <= u64::MAX {
            Some(a * b)
        } else {
            None
        },
        _ => None,
    }
}

/// Number of chunks in an inclusive rectangle, with checked arithmetic.
pub fn inclusive_chunk_area(min_x: i32, max_x: i32, min_z: i32, max_z: i32) -> (r: Option<u64>)
    ensures
        r matches Some(v) ==> chunk_area_count(
            min_x as int,
            max_x as int,
            min_z as int,
            max_z as int,
        ) == Some(v as nat),
        r is None ==> chunk_area_count(min_x as int, max_x as int, min_z as int, max_z as int) is None,
{
    let count_x = match inclusive_span(min_x, max_x) {
        Some(v) => v,
        None => return None,
    };
    let count_z = match inclusive_span(min_z, max_z) {
        Some(v) => v,
        None => return None,
    };
    count_x.checked_mul(count_z)
}

/// A command's integer result: a count, saturated at `i32::MAX`.
pub open spec fn saturated_count(value: int) -> int {
    if value <= i32::MAX {
        value
    } else {
        i32::MAX as int
    }
}

/// `i32::try_from(value).unwrap_or(i32::MAX)`.
pub fn command_count(value: u64) -> (r: i32)
    ensures
        r == saturated_count(value as int),
{
    if value <= i32::MAX as u64 {
        value as i32
    } else {
        i32::MAX
    }
}

/// Strict order of positions: by `x`, then `y`, then `z`, the order in which
/// nested `x`, `y`, `z` loops visit them.
pub open spec fn visits_before(p: Vector3, q: Vector3) -> bool {
    p.x < q.x || (p.x == q.x && (p.y < q.y || (p.y == q.y && p.z < q.z)))
}

/// An axis-aligned box of blocks, corners included.
#[derive(Clone, Copy, PartialEq, Eq, Debug, Structural)]
pub struct Region {
    pub min: Vector3,
    pub max: Vector3,
}

impl Region {
    pub open spec fn wf(self) -> bool {
        self.min.x <= self.max.x && self.min.y <= self.max.y && self.min.z <= self.max.z
    }

    pub open spec fn contains(self, p: Vector3) -> bool {
        &&& self.min.x <= p.x <= self.max.x
        &&& self.min.y <= p.y <= self.max.y
        &&& self.min.z <= p.z <= self.max.z
    }

    /// The box spanned by two opposite corners.
    pub fn spanning(a: Vector3, b: Vector3) -> (r: Region)
        ensures
            r.wf(),
            r.min.x == (if a.x <= b.x { a.x } else { b.x }),
            r.min.y == (if a.y <= b.y { a.y } else { b.y }),
            r.min.z == (if a.z <= b.z { a.z } else { b.z }),
            r.max.x == (if a.x <= b.x { b.x } else { a.x }),
            r.max.y == (if a.y <= b.y { b.y } else { a.y }),
            r.max.z == (if a.z <= b.z { b.z } else { a.z }),
    {
        let min = Vector3 {
            x: if a.x <= b.x { a.x } else { b.x },
            y: if a.y <= b.y { a.y } else { b.y },
            z: if a.z <= b.z { a.z } else { b.z },
        };
        let max = Vector3 {
            x: if a.x <= b.x { b.x } else { a.x },
            y: if a.y <= b.y { b.y } else { a.y },
            z: if a.z <= b.z { b.z } else { a.z },
        };
        Region { min, max }
    }

    /// Whether `p` lies on one of the six faces of the box.
    pub fn is_edge(&self, p: Vector3) -> (r: bool)
        ensures
            r == (p.x == self.min.x || p.x == self.max.x || p.y == self.min.y || p.y
                == self.max.y || p.z == self.min.z || p.z == self.max.z),
    {
        p.x == self.min.x || p.x == self.max.x || p.y == self.min.y || p.y == self.max.y || p.z
            == self.min.z || p.z == self.max.z
    }

    /// The first position a nested `x`, `y`, `z` walk of the box visits.
    pub fn first(&self) -> (p: Vector3)
        requires
            self.wf(),
        ensures
            self.contains(p),
            forall|q: Vector3| self.contains(q) && q != p ==> visits_before(p, q),
    {
        self.min
    }

    /// The position visited right after `p` in a nested `x`, `y`, `z` walk of
    /// the box, `z` innermost; `None` after the last one.
    pub fn next(&self, p: Vector3) -> (r: Option<Vector3>)
        requires
            self.contains(p),
        ensures
            r matches Some(q) ==> {
                &&& self.contains(q)
                &&& visits_before(p, q)
                &&& forall|m: Vector3| #![auto]
                    self.contains(m) && visits_before(p, m) ==> m == q || visits_before(q, m)
            },
            r is None ==> forall|m: Vector3| #![auto] self.contains(m) ==> !visits_before(p, m),
    {
        if p.z < self.max.z {
            Some(Vector3 { x: p.x, y: p.y, z: p.z + 1 })
        } else if p.y < self.max.y {
            Some(Vector3 { x: p.x, y: p.y + 1, z: self.min.z })
        } else if p.x < self.max.x {
            Some(Vector3 { x: p.x + 1, y: self.min.y, z: self.min.z })
        } else {
            None
        }
    }
}

} // verus!
