//! `/fill`: what each fill mode does at each position of the region, how the
//! placed blocks are counted, and the size limits from the
//! `maxBlockModifications` game rule and the `fillLimit` carpet rule.

use vstd::prelude::*;
use crate::geometry::{Region, Vector3, checked_region_volume, volume_count};
use crate::text::{decimal, i64_to_text, signed_decimal, u64_to_text};

use crate::command::tree::{ArgumentType, CommandTree, Executor, Node, NodeKind, argument, child, is_node, literal};

verus! {

/// How `/fill` treats the blocks of its region.
#[derive(Clone, Copy, PartialEq, Eq, Debug, Structural)]
pub enum Mode {
    /// Breaks the old blocks (without drops) before placing.
    Destroy,
    /// Places the block on the faces of the region and air inside.
    Hollow,
    /// Places only where the old block is air.
    Keep,
    /// Places only on the faces of the region.
    Outline,
    /// Places everywhere.
    Replace,
    /// Places everywhere, without block-added callbacks or neighbor updates.
    Strict,
}

impl Default for Mode {
    fn default() -> (m: Self)
        ensures
            m == Mode::Replace,
    {
        Mode::Replace
    }
}

/// Flags of a block change, as a bit set.
#[derive(Clone, Copy, PartialEq, Eq, Debug, Structural)]
pub struct BlockFlags(pub u32);

impl BlockFlags {
    /// Notify the neighbors of the changed block.
    pub fn notify_neighbors() -> (f: BlockFlags)
        ensures
            f.0 == 1,
    {
        BlockFlags(1)
    }

    /// Set the state even where the block would normally refuse it.
    pub fn force_state() -> (f: BlockFlags)
        ensures
            f.0 == 4,
    {
        BlockFlags(4)
    }

    /// Break the old block without drops.
    pub fn skip_drops() -> (f: BlockFlags)
        ensures
            f.0 == 8,
    {
        BlockFlags(8)
    }

    /// Skip the new block's block-added callback.
    pub fn skip_block_added_callback() -> (f: BlockFlags)
        ensures
            f.0 == 128,
    {
        BlockFlags(128)
    }

    /// Every flag of `self` and of `other`.
    pub fn union(self, other: BlockFlags) -> (f: BlockFlags)
        ensures
            f.0 == self.0 | other.0,
    {
        BlockFlags(self.0 | other.0)
    }

    pub open spec fn has(self, other: BlockFlags) -> bool {
        self.0 & other.0 == other.0
    }

    /// Whether every flag of `other` is set in `self`.
    pub fn contains(self, other: BlockFlags) -> (r: bool)
        ensures
            r == self.has(other),
    {
        self.0 & other.0 == other.0
    }
}

/// The flags `/fill` places blocks with: `FORCE_STATE`, plus
/// `SKIP_BLOCK_ADDED_CALLBACK` when the `fillUpdates` rule is off.
pub fn fill_flags(fill_updates: bool) -> (f: BlockFlags)
    ensures
        f.0 == (if fill_updates { 4u32 } else { 132u32 }),
{
    if fill_updates {
        BlockFlags::force_state()
    } else {
        let f = BlockFlags::force_state().union(BlockFlags::skip_block_added_callback());
        assert(4u32 | 128u32 == 132u32) by (bit_vector);
        f
    }
}

/// The blocks a `replace` filter accepts: those of a tag, or one block.
#[derive(Debug)]
pub enum BlockPredicate {
    Tag(Vec<u16>),
    Block(u16),
}

/// Whether `filter` rejects the block with id `block`.
pub open spec fn rejects(filter: BlockPredicate, block: u16) -> bool {
    match filter {
        BlockPredicate::Tag(ids) => !ids@.contains(block),
        BlockPredicate::Block(id) => id != block,
    }
}

/// Whether the old block `block` lies outside `filter`.
pub fn not_in_filter(filter: &BlockPredicate, block: u16) -> (r: bool)
    ensures
        r == rejects(*filter, block),
{
    match filter {
        BlockPredicate::Tag(ids) => {
            let mut i: usize = 0;
            while i < ids.len()
                invariant
                    *filter == BlockPredicate::Tag(*ids),
                    i <= ids@.len(),
                    forall|j: int| 0 <= j < i ==> ids@[j] != block,
                decreases ids@.len() - i,
            {
                if ids[i] == block {
                    assert(ids@.contains(ids@[i as int]));
                    return false;
                }
                i = i + 1;
            }
            true
        },
        BlockPredicate::Block(id) => *id != block,
    }
}

/// What happens at one position of the region.
#[derive(Clone, Copy, PartialEq, Eq, Debug, Structural)]
pub enum FillAction {
    /// The position is left alone.
    Skip,
    /// The new block is set with the fill flags.
    Place,
    /// The old block is broken without drops, then the new block is set.
    DestroyAndPlace,
    /// Air is set with the fill flags.
    Clear,
    /// The new block is set with only `SKIP_BLOCK_ADDED_CALLBACK`.
    PlaceQuietly,
}

/// The outcome a fill action reports.
#[derive(Clone, Copy, PartialEq, Eq, Debug, Structural)]
pub enum FillerResult {
    DidNotPlaceBlock,
    PlacedBlock,
    PlacedBlockWithoutUpdate,
}

impl FillAction {
    pub open spec fn spec_result(self) -> FillerResult {
        match self {
            FillAction::Skip => FillerResult::DidNotPlaceBlock,
            FillAction::PlaceQuietly => FillerResult::PlacedBlockWithoutUpdate,
            _ => FillerResult::PlacedBlock,
        }
    }

    pub fn result(self) -> (r: FillerResult)
        ensures
            r == self.spec_result(),
    {
        match self {
            FillAction::Skip => FillerResult::DidNotPlaceBlock,
            FillAction::PlaceQuietly => FillerResult::PlacedBlockWithoutUpdate,
            _ => FillerResult::PlacedBlock,
        }
    }
}

/// The action of `mode` at a position on the region's faces (`edge`) or not,
/// whose old block is air (`air`) or not and lies outside the filter
/// (`rejected`) or not.
pub open spec fn mode_action(mode: Mode, edge: bool, air: bool, rejected: bool) -> FillAction {
    match mode {
        Mode::Destroy => if rejected { FillAction::Skip } else { FillAction::DestroyAndPlace },
        Mode::Hollow => if rejected {
            FillAction::Skip
        } else if edge {
            FillAction::Place
        } else {
            FillAction::Clear
        },
        Mode::Keep => if air && !rejected { FillAction::Place } else { FillAction::Skip },
        Mode::Outline => if edge && !rejected { FillAction::Place } else { FillAction::Skip },
        Mode::Replace => if rejected { FillAction::Skip } else { FillAction::Place },
        Mode::Strict => if rejected { FillAction::Skip } else { FillAction::PlaceQuietly },
    }
}

/// What each mode does at a position: a position whose old block the filter
/// rejects is never touched; otherwise `replace`, `destroy` and `strict` set
/// the new block everywhere, `keep` only where the old block is air,
/// `outline` exactly on the region's faces whatever the old block, and
/// `hollow` sets the block on the faces and air inside. Every action but
/// `Skip` counts as a placed block, and only `strict`'s goes without
/// neighbor updates.
pub proof fn lemma_fill_modes(edge: bool, air: bool, rejected: bool)
    ensures
        forall|m: Mode| rejected ==> #[trigger] mode_action(m, edge, air, rejected) == FillAction::Skip,
        !rejected ==> mode_action(Mode::Replace, edge, air, rejected) == FillAction::Place,
        !rejected ==> mode_action(Mode::Destroy, edge, air, rejected) == FillAction::DestroyAndPlace,
        !rejected ==> mode_action(Mode::Strict, edge, air, rejected) == FillAction::PlaceQuietly,
        air && !rejected ==> mode_action(Mode::Keep, edge, air, rejected) == FillAction::Place,
        !air ==> mode_action(Mode::Keep, edge, air, rejected) == FillAction::Skip,
        edge && !rejected ==> mode_action(Mode::Outline, edge, air, rejected) == FillAction::Place,
        !edge ==> mode_action(Mode::Outline, edge, air, rejected) == FillAction::Skip,
        edge && !rejected ==> mode_action(Mode::Hollow, edge, air, rejected) == FillAction::Place,
        !edge && !rejected ==> mode_action(Mode::Hollow, edge, air, rejected) == FillAction::Clear,
        forall|a: FillAction| (#[trigger] a.spec_result() == FillerResult::DidNotPlaceBlock) <==> a == FillAction::Skip,
        forall|a: FillAction| (#[trigger] a.spec_result() == FillerResult::PlacedBlockWithoutUpdate) <==> a
            == FillAction::PlaceQuietly,
{
}

/// What `/fill` in `mode` does at `pos` of `region`, where the old block has
/// id `old_block` and is air when `old_is_air`.
pub fn fill_action(
    mode: Mode,
    region: &Region,
    pos: Vector3,
    old_block: u16,
    old_is_air: bool,
    filter: &Option<BlockPredicate>,
) -> (a: FillAction)
    ensures
        a == mode_action(
            mode,
            pos.x == region.min.x || pos.x == region.max.x || pos.y == region.min.y || pos.y
                == region.max.y || pos.z == region.min.z || pos.z == region.max.z,
            old_is_air,
            *filter matches Some(f) && rejects(f, old_block),
        ),
{
    let rejected = match filter {
        Some(f) => not_in_filter(f, old_block),
        None => false,
    };
    let edge = region.is_edge(pos);
    match mode {
        Mode::Destroy => if rejected { FillAction::Skip } else { FillAction::DestroyAndPlace },
        Mode::Hollow => if rejected {
            FillAction::Skip
        } else if edge {
            FillAction::Place
        } else {
            FillAction::Clear
        },
        Mode::Keep => if old_is_air && !rejected { FillAction::Place } else { FillAction::Skip },
        Mode::Outline => if edge && !rejected { FillAction::Place } else { FillAction::Skip },
        Mode::Replace => if rejected { FillAction::Skip } else { FillAction::Place },
        Mode::Strict => if rejected { FillAction::Skip } else { FillAction::PlaceQuietly },
    }
}

/// Blocks placed so far, and the positions whose neighbors are updated
/// afterwards.
pub struct FillTally {
    placed: i32,
    to_update: Vec<Vector3>,
}

impl View for FillTally {
    type V = (int, Seq<Vector3>);

    closed spec fn view(&self) -> (int, Seq<Vector3>) {
        (self.placed as int, self.to_update@)
    }
}

impl FillTally {
    pub fn new() -> (t: Self)
        ensures
            t@ == (0int, Seq::<Vector3>::empty()),
    {
        FillTally { placed: 0, to_update: Vec::new() }
    }

    /// Counts the outcome `result` at `pos`.
    pub fn record(&mut self, result: FillerResult, pos: Vector3)
        requires
            old(self)@.0 < i32::MAX,
        ensures
            final(self)@ == match result {
                FillerResult::PlacedBlock => (old(self)@.0 + 1, old(self)@.1.push(pos)),
                FillerResult::PlacedBlockWithoutUpdate => (old(self)@.0 + 1, old(self)@.1),
                FillerResult::DidNotPlaceBlock => old(self)@,
            },
    {
        match result {
            FillerResult::PlacedBlock => {
                self.placed = self.placed + 1;
                self.to_update.push(pos);
            },
            FillerResult::PlacedBlockWithoutUpdate => {
                self.placed = self.placed + 1;
            },
            FillerResult::DidNotPlaceBlock => {},
        }
    }

    pub fn placed(&self) -> (n: i32)
        ensures
            n == self@.0,
    {
        self.placed
    }

    /// The positions whose neighbors `/fill` updates: all recorded placements
    /// when the `fillUpdates` rule is on, none otherwise.
    pub fn updates(self, fill_updates: bool) -> (v: Vec<Vector3>)
        ensures
            v@ == (if fill_updates { self@.1 } else { Seq::<Vector3>::empty() }),
    {
        if fill_updates {
            self.to_update
        } else {
            Vec::new()
        }
    }
}

/// Why `/fill` refused or failed.
#[derive(Clone, Copy, PartialEq, Eq, Debug, Structural)]
pub enum FillError {
    /// More blocks than the `maxBlockModifications` game rule allows.
    TooBig { max: i32, total: u64 },
    /// More blocks than the `fillLimit` carpet rule allows.
    OverFillLimit { total: u64, limit: i64 },
    /// Not a single block was placed.
    Failed,
}

/// A signed limit as a block count: negative limits allow nothing.
pub open spec fn limit_count(limit: int) -> int {
    if limit >= 0 {
        limit
    } else {
        0
    }
}

/// The number of blocks `/fill` would touch: the region's volume, or
/// `u64::MAX` when it does not fit.
pub open spec fn fill_total(region: Region) -> int {
    match volume_count(region.min, region.max) {
        Some(n) => n as int,
        None => u64::MAX as int,
    }
}

/// Checks the region's size against both limits and returns its block count.
pub fn check_fill_size(region: &Region, max_block_modifications: i32, fill_limit: i64) -> (r: Result<u64, FillError>)
    ensures
        r matches Ok(total) ==> total == fill_total(*region) && total <= limit_count(
            max_block_modifications as int,
        ) && total <= limit_count(fill_limit as int),
        r matches Err(FillError::TooBig { max, total }) ==> max == max_block_modifications && total
            == fill_total(*region) && total > limit_count(max_block_modifications as int),
        r matches Err(FillError::OverFillLimit { total, limit }) ==> limit == fill_limit && total
            == fill_total(*region) && total <= limit_count(max_block_modifications as int) && total
            > limit_count(fill_limit as int),
        !(r matches Err(FillError::Failed)),
{
    let total = match checked_region_volume(region.min, region.max) {
        Some(v) => v,
        None => u64::MAX,
    };
    let max_allowed: u64 = if max_block_modifications >= 0 {
        max_block_modifications as u64
    } else {
        0
    };
    if total > max_allowed {
        return Err(FillError::TooBig { max: max_block_modifications, total });
    }
    let limit_allowed: u64 = if fill_limit >= 0 {
        fill_limit as u64
    } else {
        0
    };
    if total > limit_allowed {
        return Err(FillError::OverFillLimit { total, limit: fill_limit });
    }
    Ok(total)
}

/// The message for `FillError::OverFillLimit`.
pub open spec fn fill_limit_text(total: u64, limit: i64) -> Seq<char> {
    "Too many blocks to fill: "@ + decimal(total as nat) + " is larger than fillLimit "@
        + signed_decimal(limit as int)
}

pub fn fill_limit_message(total: u64, limit: i64) -> (s: String)
    ensures
        s@ == fill_limit_text(total, limit),
{
    let mut s = String::new();
    s.append("Too many blocks to fill: ");
    let t = u64_to_text(total);
    s.append(t.as_str());
    s.append(" is larger than fillLimit ");
    let l = i64_to_text(limit);
    s.append(l.as_str());
    s
}

/// `/fill`'s result: the number of placed blocks, or a failure when none was.
pub fn fill_outcome(placed: i32) -> (r: Result<i32, FillError>)
    ensures
        placed == 0 ==> r == Err::<i32, FillError>(FillError::Failed),
        placed != 0 ==> r == Ok::<i32, FillError>(placed),
{
    if placed == 0 {
        Err(FillError::Failed)
    } else {
        Ok(placed)
    }
}


pub const NAMES: [&'static str; 1] = ["fill"];

pub const DESCRIPTION: &'static str = "Fills all or parts of a region with a specific block.";

/// `n` is the mode word `name` selecting `mode`.
pub open spec fn is_mode(n: Node, name: Seq<char>, mode: Mode) -> bool {
    is_node(n, name, NodeKind::Literal, Some(Executor::Fill(mode)), 0)
}

/// `/fill <from> <to> <block> [destroy|hollow|keep|outline|strict]` and
/// `/fill <from> <to> <block> replace [<filter> [destroy|hollow|keep|outline|strict]]`;
/// without a mode word the mode is `replace`.
pub fn init_command_tree() -> (t: CommandTree)
    ensures
        t.names@ == NAMES@,
        t.description == DESCRIPTION,
        t.executor is None,
        t.children@.len() == 1,
        ({
            let from = t.children@[0];
            let to = child(from, 0);
            let block = child(to, 0);
            let replace = child(block, 4);
            let filter = child(replace, 0);
            &&& is_node(from, "from"@, NodeKind::Argument(ArgumentType::BlockPos), None, 1)
            &&& is_node(to, "to"@, NodeKind::Argument(ArgumentType::BlockPos), None, 1)
            &&& is_node(
                block,
                "block"@,
                NodeKind::Argument(ArgumentType::Block),
                Some(Executor::Fill(Mode::Replace)),
                6,
            )
            &&& is_mode(child(block, 0), "destroy"@, Mode::Destroy)
            &&& is_mode(child(block, 1), "hollow"@, Mode::Hollow)
            &&& is_mode(child(block, 2), "keep"@, Mode::Keep)
            &&& is_mode(child(block, 3), "outline"@, Mode::Outline)
            &&& is_node(replace, "replace"@, NodeKind::Literal, Some(Executor::Fill(Mode::Replace)), 1)
            &&& is_mode(child(block, 5), "strict"@, Mode::Strict)
            &&& is_node(
                filter,
                "filter"@,
                NodeKind::Argument(ArgumentType::BlockPredicate),
                Some(Executor::Fill(Mode::Replace)),
                5,
            )
            &&& is_mode(child(filter, 0), "destroy"@, Mode::Destroy)
            &&& is_mode(child(filter, 1), "hollow"@, Mode::Hollow)
            &&& is_mode(child(filter, 2), "keep"@, Mode::Keep)
            &&& is_mode(child(filter, 3), "outline"@, Mode::Outline)
            &&& is_mode(child(filter, 4), "strict"@, Mode::Strict)
        }),
{
    let filter = argument("filter", ArgumentType::BlockPredicate).followed_by(
        literal("destroy").execute(Executor::Fill(Mode::Destroy)),
    ).followed_by(literal("hollow").execute(Executor::Fill(Mode::Hollow))).followed_by(
        literal("keep").execute(Executor::Fill(Mode::Keep)),
    ).followed_by(literal("outline").execute(Executor::Fill(Mode::Outline))).followed_by(
        literal("strict").execute(Executor::Fill(Mode::Strict)),
    ).execute(Executor::Fill(Mode::Replace));
    let block = argument("block", ArgumentType::Block).followed_by(
        literal("destroy").execute(Executor::Fill(Mode::Destroy)),
    ).followed_by(literal("hollow").execute(Executor::Fill(Mode::Hollow))).followed_by(
        literal("keep").execute(Executor::Fill(Mode::Keep)),
    ).followed_by(literal("outline").execute(Executor::Fill(Mode::Outline))).followed_by(
        literal("replace").followed_by(filter).execute(Executor::Fill(Mode::Replace)),
    ).followed_by(literal("strict").execute(Executor::Fill(Mode::Strict))).execute(
        Executor::Fill(Mode::Replace),
    );
    CommandTree::new(&NAMES, DESCRIPTION).followed_by(
        argument("from", ArgumentType::BlockPos).followed_by(
            argument("to", ArgumentType::BlockPos).followed_by(block),
        ),
    )
}

} // verus!
