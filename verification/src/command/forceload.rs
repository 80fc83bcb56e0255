//! `/forceload`: keeps rectangles of chunks loaded. The set of forced chunks,
//! the size limit taken from the `forceloadLimit` rule, and the outcome of
//! `add`, `remove`, `remove all` and `query`.

use vstd::prelude::*;
use crate::geometry::{chunk_area_count, chunk_coord, chunk_of, inclusive_chunk_area};
use crate::text::{i64_to_text, signed_decimal};
use crate::command::tree::{ArgumentType, CommandTree, Executor, Node, NodeKind, argument, child, is_node, literal};

verus! {

/// A chunk position: chunk `x` and chunk `z`.
pub type ChunkPos = (i32, i32);

/// A rectangle of chunks, corners included.
#[derive(Clone, Copy, PartialEq, Eq, Debug, Structural)]
pub struct ChunkArea {
    pub min_x: i32,
    pub max_x: i32,
    pub min_z: i32,
    pub max_z: i32,
}

impl ChunkArea {
    pub open spec fn contains(self, p: ChunkPos) -> bool {
        self.min_x <= p.0 <= self.max_x && self.min_z <= p.1 <= self.max_z
    }

    /// The chunks of the rectangle, as a set.
    pub open spec fn chunks(self) -> Set<ChunkPos> {
        Set::new(|p: ChunkPos| self.contains(p))
    }

    /// How many chunks a command on this rectangle asks for; `u64::MAX` when
    /// the count does not fit.
    pub open spec fn requested(self) -> nat {
        match chunk_area_count(self.min_x as int, self.max_x as int, self.min_z as int, self.max_z as int) {
            Some(n) => n,
            None => u64::MAX as nat,
        }
    }

    /// The chunks that cover the block columns `from` and `to` (`x`, `z`) and
    /// everything between them.
    pub fn between_columns(from: (i32, i32), to: (i32, i32)) -> (a: ChunkArea)
        ensures
            a.min_x == min_int(chunk_of(from.0 as int), chunk_of(to.0 as int)),
            a.max_x == max_int(chunk_of(from.0 as int), chunk_of(to.0 as int)),
            a.min_z == min_int(chunk_of(from.1 as int), chunk_of(to.1 as int)),
            a.max_z == max_int(chunk_of(from.1 as int), chunk_of(to.1 as int)),
            a.min_x <= a.max_x,
            a.min_z <= a.max_z,
    {
        let x1 = chunk_coord(from.0);
        let z1 = chunk_coord(from.1);
        let x2 = chunk_coord(to.0);
        let z2 = chunk_coord(to.1);
        ChunkArea {
            min_x: if x1 <= x2 { x1 } else { x2 },
            max_x: if x1 <= x2 { x2 } else { x1 },
            min_z: if z1 <= z2 { z1 } else { z2 },
            max_z: if z1 <= z2 { z2 } else { z1 },
        }
    }

    /// The count `requested` describes, computed with checked arithmetic.
    pub fn requested_chunks(&self) -> (n: u64)
        ensures
            n == self.requested(),
    {
        match inclusive_chunk_area(self.min_x, self.max_x, self.min_z, self.max_z) {
            Some(n) => n,
            None => u64::MAX,
        }
    }
}

pub open spec fn min_int(a: int, b: int) -> int {
    if a <= b { a } else { b }
}

pub open spec fn max_int(a: int, b: int) -> int {
    if a <= b { b } else { a }
}

/// The chunk that holds block column (`x`, `z`).
pub fn chunk_of_column(x: i32, z: i32) -> (p: ChunkPos)
    ensures
        p.0 == chunk_of(x as int),
        p.1 == chunk_of(z as int),
{
    (chunk_coord(x), chunk_coord(z))
}

/// The `forceloadLimit` rule clamped to `1..=i32::MAX`.
pub open spec fn forceload_bound(limit: i64) -> int {
    if limit < 1 {
        1
    } else if limit > i32::MAX {
        i32::MAX as int
    } else {
        limit as int
    }
}

/// The size limit of one `/forceload add` or `remove`: the `forceloadLimit`
/// rule, raised to at least one chunk and capped at `i32::MAX`; a larger rule
/// never gives a smaller limit.
pub proof fn lemma_forceload_bound_clamps(limit: i64, other: i64)
    ensures
        1 <= forceload_bound(limit) <= i32::MAX,
        1 <= limit <= i32::MAX ==> forceload_bound(limit) == limit,
        limit <= other ==> forceload_bound(limit) <= forceload_bound(other),
{
}

/// Largest number of chunks one `/forceload add` or `remove` may touch.
pub fn forceload_limit(limit: i64) -> (r: u64)
    ensures
        r == forceload_bound(limit),
{
    if limit < 1 {
        1
    } else if limit > i32::MAX as i64 {
        i32::MAX as u64
    } else {
        limit as u64
    }
}

/// Why a `/forceload add` or `remove` did nothing.
#[derive(Clone, Copy, PartialEq, Eq, Debug, Structural)]
pub enum ForceloadError {
    /// The rectangle has more chunks than the limit allows.
    TooManyChunks { limit: u64, requested: u64 },
    /// Every chunk was already forced (`add`) or none was (`remove`).
    Unchanged,
}

/// The feedback of a successful `add` or `remove`.
#[derive(Clone, Copy, PartialEq, Eq, Debug, Structural)]
pub enum ForceloadFeedback {
    /// One chunk changed; the rectangle's first corner is reported.
    Single { x: i32, z: i32 },
    /// Several chunks changed in the rectangle.
    Multiple { count: u64, min_x: i32, min_z: i32, max_x: i32, max_z: i32 },
}

/// The message variant for `changed` chunks of `area`.
pub fn forceload_feedback(area: ChunkArea, changed: u64) -> (f: ForceloadFeedback)
    ensures
        changed == 1 ==> f == (ForceloadFeedback::Single { x: area.min_x, z: area.min_z }),
        changed != 1 ==> f == (ForceloadFeedback::Multiple {
            count: changed,
            min_x: area.min_x,
            min_z: area.min_z,
            max_x: area.max_x,
            max_z: area.max_z,
        }),
{
    if changed == 1 {
        ForceloadFeedback::Single { x: area.min_x, z: area.min_z }
    } else {
        ForceloadFeedback::Multiple {
            count: changed,
            min_x: area.min_x,
            min_z: area.min_z,
            max_x: area.max_x,
            max_z: area.max_z,
        }
    }
}

/// The chunks of `area` that a row-by-row walk has passed before reaching
/// row `x`, column `z`.
pub open spec fn walked(area: ChunkArea, x: int, z: int) -> Set<ChunkPos> {
    Set::new(|p: ChunkPos| area.contains(p) && (p.0 < x || (p.0 == x && p.1 < z)))
}

/// The forced chunks of a world, each once.
pub struct ForcedChunks {
    chunks: Vec<ChunkPos>,
}

impl View for ForcedChunks {
    type V = Set<ChunkPos>;

    closed spec fn view(&self) -> Set<ChunkPos> {
        self.chunks@.to_set()
    }
}

proof fn lemma_push_absent(before: Seq<ChunkPos>, p: ChunkPos)
    requires
        before.no_duplicates(),
        !before.to_set().contains(p),
    ensures
        before.push(p).no_duplicates(),
        before.push(p).to_set() == before.to_set().insert(p),
{
    let after = before.push(p);
    assert forall|a: int, b: int| 0 <= a < after.len() && 0 <= b < after.len() && a != b implies after[a] != after[b] by {
        if a < before.len() && b < before.len() {
        } else if a < before.len() {
            assert(before.to_set().contains(before[a]));
        } else if b < before.len() {
            assert(before.to_set().contains(before[b]));
        }
    }
    assert forall|x: ChunkPos| after.to_set().contains(x) <==> before.to_set().insert(p).contains(x) by {
        if after.to_set().contains(x) && x != p {
            let k = choose|k: int| 0 <= k < after.len() && after[k] == x;
            assert(before[k] == x);
        }
        if before.to_set().contains(x) {
            let k = choose|k: int| 0 <= k < before.len() && before[k] == x;
            assert(after[k] == x);
        }
        if x == p {
            assert(after[before.len() as int] == x);
        }
    }
    assert(after.to_set() =~= before.to_set().insert(p));
}

proof fn lemma_remove_at(before: Seq<ChunkPos>, i: int)
    requires
        before.no_duplicates(),
        0 <= i < before.len(),
    ensures
        before.remove(i).no_duplicates(),
        before.remove(i).to_set() == before.to_set().remove(before[i]),
{
    let after = before.remove(i);
    let p = before[i];
    assert forall|a: int, b: int| 0 <= a < after.len() && 0 <= b < after.len() && a != b implies after[a] != after[b] by {
        let oa = if a < i { a } else { a + 1 };
        let ob = if b < i { b } else { b + 1 };
        assert(after[a] == before[oa]);
        assert(after[b] == before[ob]);
    }
    assert forall|x: ChunkPos| after.to_set().contains(x) <==> before.to_set().remove(p).contains(x) by {
        if after.to_set().contains(x) {
            let k = choose|k: int| 0 <= k < after.len() && after[k] == x;
            let ok = if k < i { k } else { k + 1 };
            assert(before[ok] == x);
        }
        if before.to_set().remove(p).contains(x) {
            let k = choose|k: int| 0 <= k < before.len() && before[k] == x;
            assert(k != i);
            let nk = if k < i { k } else { k - 1 };
            assert(after[nk] == x);
        }
    }
    assert(after.to_set() =~= before.to_set().remove(p));
}

/// The text `/forceload query` lists the forced chunks with: `[x, z]` per
/// chunk, joined by `", "`.
pub open spec fn chunk_list_text(s: Seq<ChunkPos>) -> Seq<char>
    decreases s.len(),
{
    if s.len() == 0 {
        Seq::empty()
    } else if s.len() == 1 {
        chunk_text(s[0])
    } else {
        chunk_list_text(s.drop_last()) + ", "@ + chunk_text(s.last())
    }
}

pub open spec fn chunk_text(p: ChunkPos) -> Seq<char> {
    "["@ + signed_decimal(p.0 as int) + ", "@ + signed_decimal(p.1 as int) + "]"@
}

impl ForcedChunks {
    pub closed spec fn wf(self) -> bool {
        self.chunks@.no_duplicates()
    }

    /// No forced chunk.
    pub fn new() -> (s: Self)
        ensures
            s.wf(),
            s@ == Set::<ChunkPos>::empty(),
    {
        let s = ForcedChunks { chunks: Vec::new() };
        assert(s.chunks@.to_set() =~= Set::<ChunkPos>::empty());
        s
    }

    /// Whether chunk `p` is forced.
    pub fn contains(&self, p: ChunkPos) -> (r: bool)
        ensures
            r == self@.contains(p),
    {
        let mut i: usize = 0;
        while i < self.chunks.len()
            invariant
                i <= self.chunks@.len(),
                forall|j: int| 0 <= j < i ==> self.chunks@[j] != p,
            decreases self.chunks@.len() - i,
        {
            if self.chunks[i].0 == p.0 && self.chunks[i].1 == p.1 {
                assert(self.chunks@.to_set().contains(self.chunks@[i as int]));
                return true;
            }
            i = i + 1;
        }
        assert(!self.chunks@.to_set().contains(p)) by {
            if self.chunks@.to_set().contains(p) {
                let k = choose|k: int| 0 <= k < self.chunks@.len() && self.chunks@[k] == p;
                assert(self.chunks@[k] != p);
            }
        }
        false
    }

    /// Index of chunk `p`, if forced.
    fn index_of(&self, p: ChunkPos) -> (r: Option<usize>)
        ensures
            r matches Some(i) ==> i < self.chunks@.len() && self.chunks@[i as int] == p,
            r is None ==> !self@.contains(p),
    {
        let mut i: usize = 0;
        while i < self.chunks.len()
            invariant
                i <= self.chunks@.len(),
                forall|j: int| 0 <= j < i ==> self.chunks@[j] != p,
            decreases self.chunks@.len() - i,
        {
            if self.chunks[i].0 == p.0 && self.chunks[i].1 == p.1 {
                return Some(i);
            }
            i = i + 1;
        }
        assert(!self.chunks@.to_set().contains(p)) by {
            if self.chunks@.to_set().contains(p) {
                let k = choose|k: int| 0 <= k < self.chunks@.len() && self.chunks@[k] == p;
                assert(self.chunks@[k] != p);
            }
        }
        None
    }

    /// Forces every chunk of `area`, within the `forceloadLimit` rule `limit`.
    /// Returns the chunks that were not forced before, in row order.
    pub fn add_area(&mut self, area: ChunkArea, limit: i64) -> (r: Result<Vec<ChunkPos>, ForceloadError>)
        requires
            old(self).wf(),
        ensures
            final(self).wf(),
            (r matches Err(ForceloadError::TooManyChunks { .. })) <==> area.requested()
                > forceload_bound(limit),
            r matches Err(ForceloadError::TooManyChunks { limit: l, requested: n }) ==> l
                == forceload_bound(limit) && n == area.requested() && final(self)@ == old(self)@,
            r matches Err(ForceloadError::Unchanged) ==> area.chunks().subset_of(old(self)@)
                && final(self)@ == old(self)@,
            r matches Ok(added) ==> {
                &&& final(self)@ == old(self)@.union(area.chunks())
                &&& added@.no_duplicates()
                &&& added@.to_set() == area.chunks().difference(old(self)@)
                &&& added@.len() > 0
            },
    {
        let requested = area.requested_chunks();
        let bound = forceload_limit(limit);
        if requested > bound {
            return Err(ForceloadError::TooManyChunks { limit: bound, requested });
        }
        let ghost before = self@;
        let mut added: Vec<ChunkPos> = Vec::new();
        let mut x: i64 = area.min_x as i64;
        assert(walked(area, x as int, area.min_z as int) =~= Set::<ChunkPos>::empty());
        assert(self@.union(Set::<ChunkPos>::empty()) =~= self@);
        assert(added@.to_set() =~= Set::<ChunkPos>::empty().difference(before));
        while x <= area.max_x as i64
            invariant
                self.wf(),
                area.min_x <= x <= area.max_x + 1,
                self@ == before.union(walked(area, x as int, area.min_z as int)),
                added@.no_duplicates(),
                added@.to_set() == walked(area, x as int, area.min_z as int).difference(before),
            decreases area.max_x + 1 - x,
        {
            let mut z: i64 = area.min_z as i64;
            while z <= area.max_z as i64
                invariant
                    self.wf(),
                    area.min_x <= x <= area.max_x,
                    area.min_z <= z <= area.max_z + 1 || z == area.min_z,
                    self@ == before.union(walked(area, x as int, z as int)),
                    added@.no_duplicates(),
                    added@.to_set() == walked(area, x as int, z as int).difference(before),
                decreases area.max_z + 1 - z,
            {
                let p: ChunkPos = (x as i32, z as i32);
                let ghost walked_before = walked(area, x as int, z as int);
                assert(walked(area, x as int, z + 1) =~= walked_before.insert(p));
                if !self.contains(p) {
                    proof {
                        lemma_push_absent(self.chunks@, p);
                        assert(!added@.to_set().contains(p));
                        lemma_push_absent(added@, p);
                    }
                    self.chunks.push(p);
                    added.push(p);
                    assert(self@ =~= before.union(walked(area, x as int, z + 1)));
                    assert(added@.to_set() =~= walked(area, x as int, z + 1).difference(before));
                } else {
                    assert(self@ =~= before.union(walked(area, x as int, z + 1)));
                    assert(added@.to_set() =~= walked(area, x as int, z + 1).difference(before)) by {
                        assert(self@.contains(p));
                        if !before.contains(p) {
                            assert(walked_before.contains(p));
                        }
                    }
                }
                z = z + 1;
            }
            assert(walked(area, x as int, z as int) =~= walked(area, x + 1, area.min_z as int));
            x = x + 1;
        }
        assert(walked(area, x as int, area.min_z as int) =~= area.chunks());
        if added.len() == 0 {
            assert(area.chunks().subset_of(before)) by {
                assert forall|p: ChunkPos| area.chunks().contains(p) implies before.contains(p) by {
                    if !before.contains(p) {
                        assert(added@.to_set().contains(p));
                    }
                }
            }
            assert(self@ =~= before);
            return Err(ForceloadError::Unchanged);
        }
        Ok(added)
    }

    /// Releases every chunk of `area`, within the `forceloadLimit` rule `limit`.
    /// Returns the chunks that were forced before, in row order.
    pub fn remove_area(&mut self, area: ChunkArea, limit: i64) -> (r: Result<Vec<ChunkPos>, ForceloadError>)
        requires
            old(self).wf(),
        ensures
            final(self).wf(),
            (r matches Err(ForceloadError::TooManyChunks { .. })) <==> area.requested()
                > forceload_bound(limit),
            r matches Err(ForceloadError::TooManyChunks { limit: l, requested: n }) ==> l
                == forceload_bound(limit) && n == area.requested() && final(self)@ == old(self)@,
            r matches Err(ForceloadError::Unchanged) ==> area.chunks().disjoint(old(self)@)
                && final(self)@ == old(self)@,
            r matches Ok(removed) ==> {
                &&& final(self)@ == old(self)@.difference(area.chunks())
                &&& removed@.no_duplicates()
                &&& removed@.to_set() == area.chunks().intersect(old(self)@)
                &&& removed@.len() > 0
            },
    {
        let requested = area.requested_chunks();
        let bound = forceload_limit(limit);
        if requested > bound {
            return Err(ForceloadError::TooManyChunks { limit: bound, requested });
        }
        let ghost before = self@;
        let mut removed: Vec<ChunkPos> = Vec::new();
        let mut x: i64 = area.min_x as i64;
        assert(walked(area, x as int, area.min_z as int) =~= Set::<ChunkPos>::empty());
        assert(self@.difference(Set::<ChunkPos>::empty()) =~= self@);
        assert(removed@.to_set() =~= Set::<ChunkPos>::empty().intersect(before));
        while x <= area.max_x as i64
            invariant
                self.wf(),
                area.min_x <= x <= area.max_x + 1,
                self@ == before.difference(walked(area, x as int, area.min_z as int)),
                removed@.no_duplicates(),
                removed@.to_set() == walked(area, x as int, area.min_z as int).intersect(before),
            decreases area.max_x + 1 - x,
        {
            let mut z: i64 = area.min_z as i64;
            while z <= area.max_z as i64
                invariant
                    self.wf(),
                    area.min_x <= x <= area.max_x,
                    area.min_z <= z <= area.max_z + 1 || z == area.min_z,
                    self@ == before.difference(walked(area, x as int, z as int)),
                    removed@.no_duplicates(),
                    removed@.to_set() == walked(area, x as int, z as int).intersect(before),
                decreases area.max_z + 1 - z,
            {
                let p: ChunkPos = (x as i32, z as i32);
                let ghost walked_before = walked(area, x as int, z as int);
                assert(walked(area, x as int, z + 1) =~= walked_before.insert(p));
                match self.index_of(p) {
                    Some(i) => {
                        proof {
                            assert(self.chunks@.to_set().contains(self.chunks@[i as int]));
                            assert(before.contains(p));
                            lemma_remove_at(self.chunks@, i as int);
                            assert(!removed@.to_set().contains(p));
                            lemma_push_absent(removed@, p);
                        }
                        self.chunks.remove(i);
                        removed.push(p);
                        assert(self@ =~= before.difference(walked(area, x as int, z + 1)));
                        assert(removed@.to_set() =~= walked(area, x as int, z + 1).intersect(before));
                    },
                    None => {
                        assert(self@ =~= before.difference(walked(area, x as int, z + 1)));
                        assert(!before.contains(p)) by {
                            assert(!walked_before.contains(p));
                            if before.contains(p) {
                                assert(self@.contains(p));
                            }
                        }
                        assert(removed@.to_set() =~= walked(area, x as int, z + 1).intersect(before));
                    },
                }
                z = z + 1;
            }
            assert(walked(area, x as int, z as int) =~= walked(area, x + 1, area.min_z as int));
            x = x + 1;
        }
        assert(walked(area, x as int, area.min_z as int) =~= area.chunks());
        if removed.len() == 0 {
            assert(area.chunks().disjoint(before)) by {
                assert forall|p: ChunkPos| area.chunks().contains(p) implies !before.contains(p) by {
                    if before.contains(p) {
                        assert(removed@.to_set().contains(p));
                    }
                }
            }
            assert(self@ =~= before);
            return Err(ForceloadError::Unchanged);
        }
        Ok(removed)
    }

    /// Releases every forced chunk and returns them.
    pub fn remove_all(&mut self) -> (removed: Vec<ChunkPos>)
        requires
            old(self).wf(),
        ensures
            final(self).wf(),
            final(self)@ == Set::<ChunkPos>::empty(),
            removed@.no_duplicates(),
            removed@.to_set() == old(self)@,
    {
        let mut removed: Vec<ChunkPos> = Vec::new();
        std::mem::swap(&mut removed, &mut self.chunks);
        assert(self.chunks@.to_set() =~= Set::<ChunkPos>::empty());
        removed
    }

    /// The forced chunks, each once.
    pub fn positions(&self) -> (out: Vec<ChunkPos>)
        requires
            self.wf(),
        ensures
            out@.no_duplicates(),
            out@.to_set() == self@,
    {
        let mut out: Vec<ChunkPos> = Vec::new();
        let mut i: usize = 0;
        while i < self.chunks.len()
            invariant
                self.wf(),
                i <= self.chunks@.len(),
                out@ == self.chunks@.subrange(0, i as int),
            decreases self.chunks@.len() - i,
        {
            out.push(self.chunks[i]);
            i = i + 1;
            assert(out@ =~= self.chunks@.subrange(0, i as int));
        }
        assert(out@ =~= self.chunks@);
        out
    }
}

/// `chunk_list_text` of `chunks`, as `/forceload query` prints it.
pub fn chunk_list(chunks: &Vec<ChunkPos>) -> (s: String)
    ensures
        s@ == chunk_list_text(chunks@),
{
    let mut s = String::new();
    let mut i: usize = 0;
    while i < chunks.len()
        invariant
            i <= chunks@.len(),
            s@ == chunk_list_text(chunks@.subrange(0, i as int)),
        decreases chunks@.len() - i,
    {
        let p = chunks[i];
        let ghost prefix = chunks@.subrange(0, i as int);
        if i > 0 {
            s.append(", ");
        }
        s.append("[");
        let x = i64_to_text(p.0 as i64);
        s.append(x.as_str());
        s.append(", ");
        let z = i64_to_text(p.1 as i64);
        s.append(z.as_str());
        s.append("]");
        i = i + 1;
        proof {
            let next = chunks@.subrange(0, i as int);
            assert(next.drop_last() =~= prefix);
            assert(next.last() == p);
            if i == 1 {
                assert(s@ =~= chunk_text(p));
            } else {
                assert(s@ =~= chunk_list_text(prefix) + ", "@ + chunk_text(p));
            }
        }
    }
    assert(chunks@.subrange(0, chunks@.len() as int) =~= chunks@);
    s
}

/// `/forceload query`'s command result: `1` when the chunk is forced.
pub fn query_result(forced: bool) -> (r: i32)
    ensures
        r == (if forced { 1i32 } else { 0i32 }),
{
    if forced {
        1
    } else {
        0
    }
}


pub const NAMES: [&'static str; 1] = ["forceload"];

pub const DESCRIPTION: &'static str = "Constantly load chunks in the world.";

/// The permission node that guards the command; operators of level two and
/// up hold it by default.
pub const PERMISSION: &'static str = "minecraft:command.forceload";

/// `<from>` and, after it, an optional `<to>`, both running `e`.
pub open spec fn is_column_range(n: Node, e: Executor) -> bool {
    &&& is_node(n, "from"@, NodeKind::Argument(ArgumentType::ColumnPos), Some(e), 1)
    &&& is_node(child(n, 0), "to"@, NodeKind::Argument(ArgumentType::ColumnPos), Some(e), 0)
}

fn column_range(e: Executor) -> (n: Node)
    ensures
        is_column_range(n, e),
{
    argument("from", ArgumentType::ColumnPos).execute(e).followed_by(
        argument("to", ArgumentType::ColumnPos).execute(e),
    )
}

/// `/forceload add <from> [<to>]`, `/forceload remove all`,
/// `/forceload remove <from> [<to>]` and `/forceload query [<pos>]`.
pub fn register() -> (t: CommandTree)
    ensures
        t.names@ == NAMES@,
        t.description == DESCRIPTION,
        t.executor is None,
        t.children@.len() == 3,
        is_node(t.children@[0], "add"@, NodeKind::Literal, None, 1),
        is_column_range(child(t.children@[0], 0), Executor::ForceloadAdd),
        is_node(t.children@[1], "remove"@, NodeKind::Literal, None, 2),
        is_node(child(t.children@[1], 0), "all"@, NodeKind::Literal, Some(Executor::ForceloadRemoveAll), 0),
        is_column_range(child(t.children@[1], 1), Executor::ForceloadRemove),
        is_node(t.children@[2], "query"@, NodeKind::Literal, Some(Executor::ForceloadQuery), 1),
        is_node(
            child(t.children@[2], 0),
            "pos"@,
            NodeKind::Argument(ArgumentType::ColumnPos),
            Some(Executor::ForceloadQuery),
            0,
        ),
{
    CommandTree::new(&NAMES, DESCRIPTION).followed_by(
        literal("add").followed_by(column_range(Executor::ForceloadAdd)),
    ).followed_by(
        literal("remove").followed_by(literal("all").execute(Executor::ForceloadRemoveAll)).followed_by(
            column_range(Executor::ForceloadRemove),
        ),
    ).followed_by(
        literal("query").execute(Executor::ForceloadQuery).followed_by(
            argument("pos", ArgumentType::ColumnPos).execute(Executor::ForceloadQuery),
        ),
    )
}


/// After a successful `add` of an area, every chunk of it is forced.
pub proof fn lemma_added_area_forced(before: Set<ChunkPos>, area: ChunkArea, p: ChunkPos)
    requires
        area.contains(p),
    ensures
        before.union(area.chunks()).contains(p),
{
}

/// Removing an area right after adding it leaves exactly the chunks forced
/// before that lie outside it.
pub proof fn lemma_add_then_remove(before: Set<ChunkPos>, area: ChunkArea)
    ensures
        before.union(area.chunks()).difference(area.chunks()) == before.difference(area.chunks()),
{
    assert(before.union(area.chunks()).difference(area.chunks()) =~= before.difference(area.chunks()));
}

} // verus!
