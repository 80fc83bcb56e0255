//! Rotating block states about the vertical axis: horizontal facings, axes,
//! sign rotations, rail shapes, jigsaw orientations, and the property lists
//! that carry them.

use vstd::prelude::*;
use crate::text::{i64_to_text, parse_i32, parse_i32_spec, signed_decimal, str_eq};

verus! {

/// A rotation about the vertical axis, in quarter turns.
#[derive(Clone, Copy, PartialEq, Eq, Debug, Structural)]
pub enum Rotation {
    Identity,
    Clockwise90,
    Rotate180,
    CounterClockwise90,
}

impl Rotation {
    /// Clockwise quarter turns.
    pub open spec fn steps(self) -> nat {
        match self {
            Rotation::Identity => 0,
            Rotation::Clockwise90 => 1,
            Rotation::Rotate180 => 2,
            Rotation::CounterClockwise90 => 3,
        }
    }

    /// The rotation of `n` clockwise quarter turns.
    pub open spec fn of_steps(n: nat) -> Rotation {
        let m = n % 4;
        if m == 0 {
            Rotation::Identity
        } else if m == 1 {
            Rotation::Clockwise90
        } else if m == 2 {
            Rotation::Rotate180
        } else {
            Rotation::CounterClockwise90
        }
    }

    pub fn quarter_turns(self) -> (n: u32)
        ensures
            n == self.steps(),
    {
        match self {
            Rotation::Identity => 0,
            Rotation::Clockwise90 => 1,
            Rotation::Rotate180 => 2,
            Rotation::CounterClockwise90 => 3,
        }
    }

    /// A sign's `rotation` property (sixteenths of a turn) turned by this
    /// rotation, reduced to `0..16`.
    pub open spec fn spec_rotate_block_rotation(self, value: int) -> int {
        (value + 4 * self.steps()) % 16
    }

    pub fn rotate_block_rotation(self, value: i32) -> (r: i32)
        ensures
            r == self.spec_rotate_block_rotation(value as int),
    {
        let shifted: i64 = value as i64 + 2147483648 + 4 * self.quarter_turns() as i64;
        let r = shifted % 16;
        proof {
            vstd::arithmetic::div_mod::lemma_mod_multiples_vanish(
                134217728,
                value + 4 * self.steps(),
                16,
            );
        }
        r as i32
    }
}

/// A horizontal direction, in clockwise order.
#[derive(Clone, Copy, PartialEq, Eq, Debug, Structural)]
pub enum Direction {
    North,
    East,
    South,
    West,
}

impl Direction {
    pub open spec fn index(self) -> nat {
        match self {
            Direction::North => 0,
            Direction::East => 1,
            Direction::South => 2,
            Direction::West => 3,
        }
    }

    pub open spec fn at(i: nat) -> Direction {
        let m = i % 4;
        if m == 0 {
            Direction::North
        } else if m == 1 {
            Direction::East
        } else if m == 2 {
            Direction::South
        } else {
            Direction::West
        }
    }

    pub open spec fn spec_name(self) -> Seq<char> {
        match self {
            Direction::North => "north"@,
            Direction::East => "east"@,
            Direction::South => "south"@,
            Direction::West => "west"@,
        }
    }

    /// The direction reached by turning clockwise as often as `r` says.
    pub open spec fn spec_rotate(self, r: Rotation) -> Direction {
        Direction::at(self.index() + r.steps())
    }

    pub fn name(self) -> (s: &'static str)
        ensures
            s@ == self.spec_name(),
    {
        match self {
            Direction::North => "north",
            Direction::East => "east",
            Direction::South => "south",
            Direction::West => "west",
        }
    }

    pub fn rotate(self, r: Rotation) -> (d: Direction)
        ensures
            d == self.spec_rotate(r),
    {
        let i: u32 = match self {
            Direction::North => 0,
            Direction::East => 1,
            Direction::South => 2,
            Direction::West => 3,
        };
        let m = (i + r.quarter_turns()) % 4;
        if m == 0 {
            Direction::North
        } else if m == 1 {
            Direction::East
        } else if m == 2 {
            Direction::South
        } else {
            Direction::West
        }
    }

    /// The direction named `name`.
    pub fn from_name(name: &str) -> (r: Option<Direction>)
        ensures
            r == direction_named(name@),
    {
        if str_eq(name, "north") {
            Some(Direction::North)
        } else if str_eq(name, "east") {
            Some(Direction::East)
        } else if str_eq(name, "south") {
            Some(Direction::South)
        } else if str_eq(name, "west") {
            Some(Direction::West)
        } else {
            None
        }
    }
}

/// The horizontal direction named `s`, if any.
pub open spec fn direction_named(s: Seq<char>) -> Option<Direction> {
    if s == "north"@ {
        Some(Direction::North)
    } else if s == "east"@ {
        Some(Direction::East)
    } else if s == "south"@ {
        Some(Direction::South)
    } else if s == "west"@ {
        Some(Direction::West)
    } else {
        None
    }
}

/// An `axis` value `x` or `z` after rotation: quarter turns swap them.
pub open spec fn axis_rotated(value: Seq<char>, r: Rotation) -> Seq<char> {
    if r.steps() % 2 == 1 {
        if value == "x"@ {
            "z"@
        } else {
            "x"@
        }
    } else {
        value
    }
}

/// A rail's `shape` value.
#[derive(Clone, Copy, PartialEq, Eq, Debug, Structural)]
pub enum RailShape {
    NorthSouth,
    EastWest,
    AscendingEast,
    AscendingWest,
    AscendingNorth,
    AscendingSouth,
    SouthEast,
    SouthWest,
    NorthWest,
    NorthEast,
}

impl RailShape {
    pub open spec fn spec_name(self) -> Seq<char> {
        match self {
            RailShape::NorthSouth => "north_south"@,
            RailShape::EastWest => "east_west"@,
            RailShape::AscendingEast => "ascending_east"@,
            RailShape::AscendingWest => "ascending_west"@,
            RailShape::AscendingNorth => "ascending_north"@,
            RailShape::AscendingSouth => "ascending_south"@,
            RailShape::SouthEast => "south_east"@,
            RailShape::SouthWest => "south_west"@,
            RailShape::NorthWest => "north_west"@,
            RailShape::NorthEast => "north_east"@,
        }
    }

    /// The shape after one clockwise quarter turn.
    pub open spec fn spec_clockwise(self) -> RailShape {
        match self {
            RailShape::NorthSouth => RailShape::EastWest,
            RailShape::EastWest => RailShape::NorthSouth,
            RailShape::AscendingEast => RailShape::AscendingSouth,
            RailShape::AscendingSouth => RailShape::AscendingWest,
            RailShape::AscendingWest => RailShape::AscendingNorth,
            RailShape::AscendingNorth => RailShape::AscendingEast,
            RailShape::SouthEast => RailShape::SouthWest,
            RailShape::SouthWest => RailShape::NorthWest,
            RailShape::NorthWest => RailShape::NorthEast,
            RailShape::NorthEast => RailShape::SouthEast,
        }
    }

    /// The shape after `n` clockwise quarter turns.
    pub open spec fn turned(self, n: nat) -> RailShape
        decreases n,
    {
        if n == 0 {
            self
        } else {
            self.turned((n - 1) as nat).spec_clockwise()
        }
    }

    pub fn name(self) -> (s: &'static str)
        ensures
            s@ == self.spec_name(),
    {
        match self {
            RailShape::NorthSouth => "north_south",
            RailShape::EastWest => "east_west",
            RailShape::AscendingEast => "ascending_east",
            RailShape::AscendingWest => "ascending_west",
            RailShape::AscendingNorth => "ascending_north",
            RailShape::AscendingSouth => "ascending_south",
            RailShape::SouthEast => "south_east",
            RailShape::SouthWest => "south_west",
            RailShape::NorthWest => "north_west",
            RailShape::NorthEast => "north_east",
        }
    }

    pub fn clockwise(self) -> (s: RailShape)
        ensures
            s == self.spec_clockwise(),
    {
        match self {
            RailShape::NorthSouth => RailShape::EastWest,
            RailShape::EastWest => RailShape::NorthSouth,
            RailShape::AscendingEast => RailShape::AscendingSouth,
            RailShape::AscendingSouth => RailShape::AscendingWest,
            RailShape::AscendingWest => RailShape::AscendingNorth,
            RailShape::AscendingNorth => RailShape::AscendingEast,
            RailShape::SouthEast => RailShape::SouthWest,
            RailShape::SouthWest => RailShape::NorthWest,
            RailShape::NorthWest => RailShape::NorthEast,
            RailShape::NorthEast => RailShape::SouthEast,
        }
    }

    pub fn from_name(name: &str) -> (r: Option<RailShape>)
        ensures
            r == rail_named(name@),
    {
        if str_eq(name, "north_south") {
            Some(RailShape::NorthSouth)
        } else if str_eq(name, "east_west") {
            Some(RailShape::EastWest)
        } else if str_eq(name, "ascending_east") {
            Some(RailShape::AscendingEast)
        } else if str_eq(name, "ascending_west") {
            Some(RailShape::AscendingWest)
        } else if str_eq(name, "ascending_north") {
            Some(RailShape::AscendingNorth)
        } else if str_eq(name, "ascending_south") {
            Some(RailShape::AscendingSouth)
        } else if str_eq(name, "south_east") {
            Some(RailShape::SouthEast)
        } else if str_eq(name, "south_west") {
            Some(RailShape::SouthWest)
        } else if str_eq(name, "north_west") {
            Some(RailShape::NorthWest)
        } else if str_eq(name, "north_east") {
            Some(RailShape::NorthEast)
        } else {
            None
        }
    }
}

/// The rail shape named `s`, if any.
pub open spec fn rail_named(s: Seq<char>) -> Option<RailShape> {
    if s == "north_south"@ {
        Some(RailShape::NorthSouth)
    } else if s == "east_west"@ {
        Some(RailShape::EastWest)
    } else if s == "ascending_east"@ {
        Some(RailShape::AscendingEast)
    } else if s == "ascending_west"@ {
        Some(RailShape::AscendingWest)
    } else if s == "ascending_north"@ {
        Some(RailShape::AscendingNorth)
    } else if s == "ascending_south"@ {
        Some(RailShape::AscendingSouth)
    } else if s == "south_east"@ {
        Some(RailShape::SouthEast)
    } else if s == "south_west"@ {
        Some(RailShape::SouthWest)
    } else if s == "north_west"@ {
        Some(RailShape::NorthWest)
    } else if s == "north_east"@ {
        Some(RailShape::NorthEast)
    } else {
        None
    }
}

/// A rail `shape` value after rotation; `None` for an unknown shape.
pub open spec fn rail_rotated(shape: Seq<char>, r: Rotation) -> Option<Seq<char>> {
    match rail_named(shape) {
        Some(s) => Some(s.turned(r.steps()).spec_name()),
        None => None,
    }
}

/// Turns a rail `shape` value by `rotation`; `None` for an unknown shape.
pub fn rotate_rail_shape(shape: &str, rotation: Rotation) -> (r: Option<&'static str>)
    ensures
        match (r, rail_rotated(shape@, rotation)) {
            (Some(a), Some(b)) => a@ == b,
            (None, None) => true,
            _ => false,
        },
{
    let steps = rotation.quarter_turns();
    let mut current = match RailShape::from_name(shape) {
        Some(s) => s,
        None => return None,
    };
    let ghost start = current;
    let mut i: u32 = 0;
    while i < steps
        invariant
            i <= steps,
            steps == rotation.steps(),
            current == start.turned(i as nat),
        decreases steps - i,
    {
        current = current.clockwise();
        i = i + 1;
    }
    Some(current.name())
}

/// One half of a jigsaw `orientation`: a horizontal direction, `up` or `down`.
pub open spec fn part_rotated(part: Seq<char>, r: Rotation) -> Option<Seq<char>> {
    match direction_named(part) {
        Some(d) => Some(d.spec_rotate(r).spec_name()),
        None => if part == "up"@ || part == "down"@ {
            Some(part)
        } else {
            None
        },
    }
}

/// `str::split_once(c)`: the text before the first `c` and the text after it.
pub open spec fn split_first(s: Seq<char>, c: char) -> Option<(Seq<char>, Seq<char>)>
    decreases s.len(),
{
    if s.len() == 0 {
        None
    } else if s[0] == c {
        Some((Seq::empty(), s.skip(1)))
    } else {
        match split_first(s.skip(1), c) {
            Some(parts) => Some((seq![s[0]] + parts.0, parts.1)),
            None => None,
        }
    }
}

proof fn lemma_split_first(s: Seq<char>, c: char, p: int)
    requires
        0 <= p <= s.len(),
        forall|j: int| 0 <= j < p ==> s[j] != c,
        p < s.len() ==> s[p] == c,
    ensures
        p < s.len() ==> split_first(s, c) == Some((s.take(p), s.skip(p + 1))),
        p == s.len() ==> split_first(s, c) is None,
    decreases s.len(),
{
    if s.len() > 0 && p > 0 {
        let t = s.skip(1);
        assert forall|j: int| 0 <= j < p - 1 implies t[j] != c by {
            assert(t[j] == s[j + 1]);
        }
        if p < s.len() {
            assert(t[p - 1] == s[p]);
        }
        lemma_split_first(t, c, p - 1);
        if p < s.len() {
            assert(seq![s[0]] + t.take(p - 1) =~= s.take(p));
            assert(t.skip(p) =~= s.skip(p + 1));
        }
    } else if s.len() > 0 {
        assert(s.take(0) =~= Seq::<char>::empty());
    }
}

/// A jigsaw `orientation` value (`<part>_<part>`) after rotation; `None` when
/// it is not of that form.
pub open spec fn orientation_rotated(orientation: Seq<char>, r: Rotation) -> Option<Seq<char>> {
    match split_first(orientation, '_') {
        Some(parts) => match (part_rotated(parts.0, r), part_rotated(parts.1, r)) {
            (Some(a), Some(b)) => Some(a + "_"@ + b),
            _ => None,
        },
        None => None,
    }
}

fn rotate_part(part: &str, rotation: Rotation) -> (r: Option<&'static str>)
    ensures
        match (r, part_rotated(part@, rotation)) {
            (Some(a), Some(b)) => a@ == b,
            (None, None) => true,
            _ => false,
        },
{
    match Direction::from_name(part) {
        Some(d) => Some(d.rotate(rotation).name()),
        None => if str_eq(part, "up") {
            Some("up")
        } else if str_eq(part, "down") {
            Some("down")
        } else {
            None
        },
    }
}

/// Turns a jigsaw `orientation` value by `rotation`.
pub fn rotate_orientation(orientation: &str, rotation: Rotation) -> (r: Option<String>)
    ensures
        match (r, orientation_rotated(orientation@, rotation)) {
            (Some(a), Some(b)) => a@ == b,
            (None, None) => true,
            _ => false,
        },
{
    let n = orientation.unicode_len();
    let mut p: usize = 0;
    while p < n
        invariant
            n == orientation@.len(),
            p <= n,
            forall|j: int| 0 <= j < p ==> orientation@[j] != '_',
        ensures
            n == orientation@.len(),
            p <= n,
            forall|j: int| 0 <= j < p ==> orientation@[j] != '_',
            p < n ==> orientation@[p as int] == '_',
        decreases n - p,
    {
        if orientation.get_char(p) == '_' {
            break;
        }
        p = p + 1;
    }
    if p == n {
        proof {
            lemma_split_first(orientation@, '_', p as int);
        }
        return None;
    }
    proof {
        lemma_split_first(orientation@, '_', p as int);
    }
    let first = orientation.substring_char(0, p);
    let second = orientation.substring_char(p + 1, n);
    assert(first@ =~= orientation@.take(p as int));
    assert(second@ =~= orientation@.skip(p + 1));
    let a = match rotate_part(first, rotation) {
        Some(a) => a,
        None => return None,
    };
    let b = match rotate_part(second, rotation) {
        Some(b) => b,
        None => return None,
    };
    let mut s = String::from_str(a);
    s.append("_");
    s.append(b);
    Some(s)
}

/// What a property's value becomes under `r`, when the property is one that
/// rotates: `facing` (horizontal values), `axis` (`x`, `z`), `rotation`
/// (integers), rail `shape`, jigsaw `orientation`.
pub open spec fn rotated_value(key: Seq<char>, value: Seq<char>, r: Rotation) -> Option<Seq<char>> {
    if key == "facing"@ && direction_named(value) is Some {
        Some(direction_named(value).unwrap().spec_rotate(r).spec_name())
    } else if key == "axis"@ && (value == "x"@ || value == "z"@) {
        Some(axis_rotated(value, r))
    } else if key == "rotation"@ {
        match parse_i32_spec(value) {
            Some(v) => Some(signed_decimal(r.spec_rotate_block_rotation(v as int))),
            None => None,
        }
    } else if key == "shape"@ {
        rail_rotated(value, r)
    } else if key == "orientation"@ {
        orientation_rotated(value, r)
    } else {
        None
    }
}

/// A property's value after rotation.
pub open spec fn new_value(key: Seq<char>, value: Seq<char>, r: Rotation) -> Seq<char> {
    match rotated_value(key, value, r) {
        Some(v) => v,
        None => value,
    }
}

/// A property's name after rotation: connection properties named after a
/// horizontal direction (`north=true` on fences) turn with it.
pub open spec fn new_key(key: Seq<char>, r: Rotation) -> Seq<char> {
    match direction_named(key) {
        Some(d) => d.spec_rotate(r).spec_name(),
        None => key,
    }
}

/// The properties with every name and value rotated.
pub open spec fn rotated_props(props: Seq<(Seq<char>, Seq<char>)>, r: Rotation) -> Seq<(Seq<char>, Seq<char>)> {
    props.map_values(|p: (Seq<char>, Seq<char>)| (new_key(p.0, r), new_value(p.0, p.1, r)))
}

/// The view of a property list.
pub open spec fn props_view(props: Seq<(String, String)>) -> Seq<(Seq<char>, Seq<char>)> {
    props.map_values(|p: (String, String)| (p.0@, p.1@))
}

fn rotate_value(key: &str, value: &str, r: Rotation) -> (out: Option<String>)
    ensures
        match (out, rotated_value(key@, value@, r)) {
            (Some(a), Some(b)) => a@ == b,
            (None, None) => true,
            _ => false,
        },
{
    if str_eq(key, "facing") {
        if let Some(d) = Direction::from_name(value) {
            return Some(String::from_str(d.rotate(r).name()));
        }
    }
    if str_eq(key, "axis") && (str_eq(value, "x") || str_eq(value, "z")) {
        let rotated = if r.quarter_turns() % 2 == 1 {
            if str_eq(value, "x") {
                "z"
            } else {
                "x"
            }
        } else {
            value
        };
        return Some(String::from_str(rotated));
    }
    if str_eq(key, "rotation") {
        return match parse_i32(value) {
            Some(v) => Some(i64_to_text(r.rotate_block_rotation(v) as i64)),
            None => None,
        };
    }
    if str_eq(key, "shape") {
        return match rotate_rail_shape(value, r) {
            Some(s) => Some(String::from_str(s)),
            None => None,
        };
    }
    if str_eq(key, "orientation") {
        return rotate_orientation(value, r);
    }
    None
}

/// Rotates a block state's property list. `None` when nothing changes (the
/// state stays as it is); otherwise the rotated list, entry by entry.
pub fn rotate_properties(props: &Vec<(String, String)>, rotation: Rotation) -> (r: Option<Vec<(String, String)>>)
    ensures
        rotation == Rotation::Identity ==> r is None,
        rotation != Rotation::Identity ==> (r is None <==> rotated_props(props_view(props@), rotation)
            == props_view(props@)),
        r matches Some(v) ==> props_view(v@) == rotated_props(props_view(props@), rotation),
{
    if rotation == Rotation::Identity {
        return None;
    }
    let ghost src = props_view(props@);
    let ghost want = rotated_props(src, rotation);
    let mut out: Vec<(String, String)> = Vec::new();
    let mut changed = false;
    let mut i: usize = 0;
    assert(want.take(0) =~= src.take(0));
    while i < props.len()
        invariant
            src == props_view(props@),
            want == rotated_props(src, rotation),
            i <= props@.len(),
            props_view(out@) == want.take(i as int),
            changed == (want.take(i as int) != src.take(i as int)),
        decreases props@.len() - i,
    {
        let key = props[i].0.as_str();
        let value = props[i].1.as_str();
        assert(src[i as int] == (key@, value@));
        let new_v = match rotate_value(key, value, rotation) {
            Some(v) => v,
            None => String::from_str(value),
        };
        let new_k = match Direction::from_name(key) {
            Some(d) => String::from_str(d.rotate(rotation).name()),
            None => String::from_str(key),
        };
        let entry_changed = !str_eq(new_k.as_str(), key) || !str_eq(new_v.as_str(), value);
        let ghost old_out = out@;
        out.push((new_k, new_v));
        proof {
            assert(want[i as int] == (new_key(key@, rotation), new_value(key@, value@, rotation)));
            assert(props_view(out@) =~= props_view(old_out).push(want[i as int]));
            assert(want.take(i + 1) =~= want.take(i as int).push(want[i as int]));
            assert(src.take(i + 1) =~= src.take(i as int).push(src[i as int]));
            if want.take(i as int) != src.take(i as int) {
                assert(want.take(i + 1) != src.take(i + 1)) by {
                    if want.take(i + 1) == src.take(i + 1) {
                        assert(want.take(i + 1).take(i as int) =~= want.take(i as int));
                        assert(src.take(i + 1).take(i as int) =~= src.take(i as int));
                    }
                }
            }
            if entry_changed {
                assert(want.take(i + 1)[i as int] != src.take(i + 1)[i as int]);
            }
        }
        changed = changed || entry_changed;
        i = i + 1;
    }
    assert(want.take(props@.len() as int) =~= want);
    assert(src.take(props@.len() as int) =~= src);
    if !changed {
        return None;
    }
    Some(out)
}

/// Turning a direction by `a` and then by `b` is turning it by both at once.
pub proof fn lemma_direction_rotations_compose(d: Direction, a: Rotation, b: Rotation)
    ensures
        d.spec_rotate(a).spec_rotate(b) == d.spec_rotate(Rotation::of_steps(a.steps() + b.steps())),
{
}

/// Four clockwise quarter turns bring a direction back.
pub proof fn lemma_direction_full_turn(d: Direction)
    ensures
        d.spec_rotate(Rotation::Clockwise90).spec_rotate(Rotation::Clockwise90).spec_rotate(
            Rotation::Clockwise90,
        ).spec_rotate(Rotation::Clockwise90) == d,
{
}

/// A quarter turn clockwise is undone by one counterclockwise.
pub proof fn lemma_direction_turn_back(d: Direction)
    ensures
        d.spec_rotate(Rotation::Clockwise90).spec_rotate(Rotation::CounterClockwise90) == d,
        d.spec_rotate(Rotation::CounterClockwise90).spec_rotate(Rotation::Clockwise90) == d,
{
}

/// Whether a rail of shape `s` joins the neighbor in direction `d`; an
/// ascending rail joins the side it rises towards and the opposite one.
pub open spec fn rail_joins(s: RailShape, d: Direction) -> bool {
    match s {
        RailShape::NorthSouth | RailShape::AscendingNorth | RailShape::AscendingSouth => d
            == Direction::North || d == Direction::South,
        RailShape::EastWest | RailShape::AscendingEast | RailShape::AscendingWest => d == Direction::East
            || d == Direction::West,
        RailShape::SouthEast => d == Direction::South || d == Direction::East,
        RailShape::SouthWest => d == Direction::South || d == Direction::West,
        RailShape::NorthWest => d == Direction::North || d == Direction::West,
        RailShape::NorthEast => d == Direction::North || d == Direction::East,
    }
}

/// The direction an ascending rail rises towards; `None` for a flat rail.
pub open spec fn rail_rise(s: RailShape) -> Option<Direction> {
    match s {
        RailShape::AscendingNorth => Some(Direction::North),
        RailShape::AscendingEast => Some(Direction::East),
        RailShape::AscendingSouth => Some(Direction::South),
        RailShape::AscendingWest => Some(Direction::West),
        _ => None,
    }
}

/// Turning a rail by `r` turns everything about it by `r`: it joins the
/// turned neighbors of the ones it joined, and an ascending rail rises
/// towards the turned direction (`ascending_south` turned clockwise rises
/// west). Joins and rise together tell every shape apart, so this fixes the
/// turned shape.
pub proof fn lemma_rail_turns_with_directions(s: RailShape, r: Rotation, d: Direction)
    ensures
        rail_joins(s, d) <==> rail_joins(s.turned(r.steps()), d.spec_rotate(r)),
        rail_rise(s.turned(r.steps())) == (match rail_rise(s) {
            Some(up) => Some(up.spec_rotate(r)),
            None => None::<Direction>,
        }),
        forall|t: RailShape| (forall|e: Direction| rail_joins(s, e) == rail_joins(t, e)) && rail_rise(s)
            == rail_rise(t) ==> s == t,
{
    reveal_with_fuel(RailShape::turned, 4);
    assert forall|t: RailShape| (forall|e: Direction| rail_joins(s, e) == rail_joins(t, e)) && rail_rise(s)
        == rail_rise(t) implies s == t by {
        assert(rail_joins(s, Direction::North) == rail_joins(t, Direction::North));
        assert(rail_joins(s, Direction::East) == rail_joins(t, Direction::East));
        assert(rail_joins(s, Direction::South) == rail_joins(t, Direction::South));
        assert(rail_joins(s, Direction::West) == rail_joins(t, Direction::West));
    }
}

/// A quarter turn clockwise takes north to east, east to south, south to
/// west and west to north; a counterclockwise one goes back, and a half turn
/// gives the opposite direction.
pub proof fn lemma_direction_turns(d: Direction)
    ensures
        d.spec_rotate(Rotation::Identity) == d,
        d.spec_rotate(Rotation::Clockwise90) == match d {
            Direction::North => Direction::East,
            Direction::East => Direction::South,
            Direction::South => Direction::West,
            Direction::West => Direction::North,
        },
        d.spec_rotate(Rotation::Clockwise90).spec_rotate(Rotation::CounterClockwise90) == d,
        d.spec_rotate(Rotation::Rotate180) != d,
        d.spec_rotate(Rotation::Rotate180).spec_rotate(Rotation::Rotate180) == d,
{
}

/// An ascending rail is named `ascending_` and the direction it rises
/// towards.
pub proof fn lemma_ascending_rail_names(s: RailShape)
    ensures
        rail_rise(s) matches Some(up) ==> s.spec_name() == "ascending_"@ + up.spec_name(),
{
    reveal_strlit("ascending_");
    reveal_strlit("ascending_north");
    reveal_strlit("ascending_east");
    reveal_strlit("ascending_south");
    reveal_strlit("ascending_west");
    reveal_strlit("north");
    reveal_strlit("east");
    reveal_strlit("south");
    reveal_strlit("west");
    match s {
        RailShape::AscendingNorth => assert("ascending_north"@ =~= "ascending_"@ + "north"@),
        RailShape::AscendingEast => assert("ascending_east"@ =~= "ascending_"@ + "east"@),
        RailShape::AscendingSouth => assert("ascending_south"@ =~= "ascending_"@ + "south"@),
        RailShape::AscendingWest => assert("ascending_west"@ =~= "ascending_"@ + "west"@),
        _ => {},
    }
}

/// Four clockwise quarter turns bring a rail shape back.
pub proof fn lemma_rail_full_turn(s: RailShape)
    ensures
        s.turned(4) == s,
{
    reveal_with_fuel(RailShape::turned, 5);
}

/// Sign rotations compose like the turns: turning by `a` and then by `b`
/// equals turning by both at once.
pub proof fn lemma_block_rotation_composes(v: int, a: Rotation, b: Rotation)
    ensures
        b.spec_rotate_block_rotation(a.spec_rotate_block_rotation(v)) == Rotation::of_steps(
            a.steps() + b.steps(),
        ).spec_rotate_block_rotation(v),
{
    let s = a.steps() + b.steps();
    assert(4 * (s % 4) % 16 == (4 * s) % 16) by (nonlinear_arith)
        requires
            0 <= s,
    ;
    vstd::arithmetic::div_mod::lemma_add_mod_noop(v + 4 * a.steps(), 4 * b.steps() as int, 16);
    vstd::arithmetic::div_mod::lemma_mod_twice(v + 4 * a.steps(), 16);
    vstd::arithmetic::div_mod::lemma_add_mod_noop(v, (4 * s) as int, 16);
    vstd::arithmetic::div_mod::lemma_add_mod_noop(v, (4 * (s % 4)) as int, 16);
}

} // verus!
