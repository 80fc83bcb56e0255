//! `/draw sphere` and `/draw ball`: which offsets around the center belong to
//! the shape, the radius argument, and the report.

use vstd::prelude::*;
use crate::command::fill::BlockFlags;
use crate::text::{decimal, parse_i32, parse_i32_spec, signed_decimal, u64_to_text, i64_to_text};

use crate::command::tree::{ArgumentType, CommandTree, Executor, Node, NodeKind, argument, child, is_node, literal};

verus! {

/// Largest radius `/draw` accepts.
pub const MAX_RADIUS: i32 = 16;

/// The radius argument: an `i32` from 1 to `MAX_RADIUS`.
pub open spec fn radius_result(raw: Seq<char>) -> Result<i32, Seq<char>> {
    match parse_i32_spec(raw) {
        None => Err("Invalid value for radius"@),
        Some(r) => if 1 <= r <= MAX_RADIUS {
            Ok(r)
        } else {
            Err("radius must be between 1 and 16"@)
        },
    }
}

/// Parses and checks the radius argument.
pub fn parse_radius(raw: &str) -> (r: Result<i32, String>)
    ensures
        match (r, radius_result(raw@)) {
            (Ok(a), Ok(b)) => a == b,
            (Err(m), Err(n)) => m@ == n,
            _ => false,
        },
{
    match parse_i32(raw) {
        None => Err(String::from_str("Invalid value for radius")),
        Some(radius) => if 1 <= radius && radius <= MAX_RADIUS {
            Ok(radius)
        } else {
            Err(String::from_str("radius must be between 1 and 16"))
        },
    }
}

/// Whether offset (`dx`, `dy`, `dz`) belongs to the shape of `radius`: its
/// squared distance `d` is at most `radius²`, and for a hollow sphere also at
/// least `(radius - 1.5)²`, which for integers is `4 d >= (2 radius - 3)²`.
pub open spec fn in_shape_spec(filled: bool, radius: int, dx: int, dy: int, dz: int) -> bool {
    let d = dx * dx + dy * dy + dz * dz;
    d <= radius * radius && (filled || 4 * d >= (2 * radius - 3) * (2 * radius - 3))
}

/// The shapes `/draw` places: a sphere lies inside the ball of the same
/// radius, both are symmetric under mirroring and swapping the axes, the
/// ball holds its center and the points `radius` away along an axis, which
/// the sphere holds too, and nothing farther than `radius` along an axis
/// belongs to either. A radius parses only between 1 and `MAX_RADIUS`.
pub proof fn lemma_draw_shapes(filled: bool, radius: int, dx: int, dy: int, dz: int, raw: Seq<char>)
    requires
        1 <= radius,
    ensures
        in_shape_spec(false, radius, dx, dy, dz) ==> in_shape_spec(true, radius, dx, dy, dz),
        in_shape_spec(filled, radius, dx, dy, dz) == in_shape_spec(filled, radius, -dx, dy, dz),
        in_shape_spec(filled, radius, dx, dy, dz) == in_shape_spec(filled, radius, dy, dz, dx),
        in_shape_spec(filled, radius, dx, dy, dz) == in_shape_spec(filled, radius, dy, dx, dz),
        in_shape_spec(true, radius, 0, 0, 0),
        in_shape_spec(filled, radius, radius, 0, 0),
        dx > radius || dx < -radius ==> !in_shape_spec(filled, radius, dx, dy, dz),
        radius_result(raw) matches Ok(r) ==> 1 <= r <= MAX_RADIUS,
{
    assert(4 * (radius * radius) >= (2 * radius - 3) * (2 * radius - 3)) by (nonlinear_arith)
        requires
            1 <= radius,
    ;
    assert((-dx) * (-dx) == dx * dx) by (nonlinear_arith);
    if dx > radius || dx < -radius {
        assert(dx * dx > radius * radius) by (nonlinear_arith)
            requires
                1 <= radius,
                dx > radius || dx < -radius,
        ;
        assert(dy * dy >= 0 && dz * dz >= 0) by (nonlinear_arith);
    }
}

/// `in_shape_spec` for an offset within the radius.
pub fn in_shape(filled: bool, radius: i32, dx: i32, dy: i32, dz: i32) -> (r: bool)
    requires
        1 <= radius <= MAX_RADIUS,
        -radius <= dx <= radius,
        -radius <= dy <= radius,
        -radius <= dz <= radius,
    ensures
        r == in_shape_spec(filled, radius as int, dx as int, dy as int, dz as int),
{
    assert(dx * dx <= 256 && dy * dy <= 256 && dz * dz <= 256) by (nonlinear_arith)
        requires
            -16 <= dx <= 16,
            -16 <= dy <= 16,
            -16 <= dz <= 16,
    ;
    assert(0 <= dx * dx && 0 <= dy * dy && 0 <= dz * dz) by (nonlinear_arith);
    assert(radius * radius <= 256 && (2 * radius - 3) * (2 * radius - 3) <= 900) by (nonlinear_arith)
        requires
            1 <= radius <= 16,
    ;
    let d: i64 = dx as i64 * dx as i64 + dy as i64 * dy as i64 + dz as i64 * dz as i64;
    let r2: i64 = radius as i64 * radius as i64;
    let k: i64 = 2 * radius as i64 - 3;
    assert(0 <= k * k && k * k <= 900) by (nonlinear_arith)
        requires
            -1 <= k <= 29,
    ;
    let inner: i64 = k * k;
    d <= r2 && (filled || 4 * d >= inner)
}

/// The flags `/draw` places blocks with: `FORCE_STATE`, plus
/// `NOTIFY_NEIGHBORS` when the `fillUpdates` rule is on.
pub fn draw_flags(fill_updates: bool) -> (f: BlockFlags)
    ensures
        f.0 == (if fill_updates { 5u32 } else { 4u32 }),
{
    if fill_updates {
        let f = BlockFlags::force_state().union(BlockFlags::notify_neighbors());
        assert(4u32 | 1u32 == 5u32) by (bit_vector);
        f
    } else {
        BlockFlags::force_state()
    }
}

/// The report after drawing.
pub open spec fn draw_text(filled: bool, radius: i32, placed: u32) -> Seq<char> {
    "Drew a "@ + (if filled { "ball"@ } else { "sphere"@ }) + " of radius "@ + signed_decimal(
        radius as int,
    ) + ": "@ + decimal(placed as nat) + " blocks placed"@
}

pub fn draw_message(filled: bool, radius: i32, placed: u32) -> (s: String)
    ensures
        s@ == draw_text(filled, radius, placed),
{
    let mut s = String::from_str("Drew a ");
    s.append(if filled { "ball" } else { "sphere" });
    s.append(" of radius ");
    let r = i64_to_text(radius as i64);
    s.append(r.as_str());
    s.append(": ");
    let p = u64_to_text(placed as u64);
    s.append(p.as_str());
    s.append(" blocks placed");
    s
}


pub const NAMES: [&'static str; 1] = ["draw"];

pub const DESCRIPTION: &'static str = "Draws geometric shapes of blocks.";

/// `<center> <radius> <block>` under a shape literal.
pub open spec fn is_shape_args(n: Node, filled: bool) -> bool {
    &&& is_node(n, "center"@, NodeKind::Argument(ArgumentType::BlockPos), None, 1)
    &&& is_node(child(n, 0), "radius"@, NodeKind::Argument(ArgumentType::Simple), None, 1)
    &&& is_node(
        child(child(n, 0), 0),
        "block"@,
        NodeKind::Argument(ArgumentType::Block),
        Some(Executor::Draw { filled }),
        0,
    )
}

pub fn shape_args(filled: bool) -> (n: Node)
    ensures
        is_shape_args(n, filled),
{
    argument("center", ArgumentType::BlockPos).followed_by(
        argument("radius", ArgumentType::Simple).followed_by(
            argument("block", ArgumentType::Block).execute(Executor::Draw { filled }),
        ),
    )
}

/// `/draw sphere ...` (hollow) and `/draw ball ...` (filled).
pub fn init_command_tree() -> (t: CommandTree)
    ensures
        t.names@ == NAMES@,
        t.description == DESCRIPTION,
        t.executor is None,
        t.children@.len() == 2,
        is_node(t.children@[0], "sphere"@, NodeKind::Literal, None, 1),
        is_shape_args(child(t.children@[0], 0), false),
        is_node(t.children@[1], "ball"@, NodeKind::Literal, None, 1),
        is_shape_args(child(t.children@[1], 0), true),
{
    CommandTree::new(&NAMES, DESCRIPTION).followed_by(literal("sphere").followed_by(shape_args(false))).followed_by(
        literal("ball").followed_by(shape_args(true)),
    )
}

} // verus!
