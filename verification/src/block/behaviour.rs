//! What the customised blocks decide when placed, used or updated.

use vstd::prelude::*;
use crate::block::data::BlockId;
use crate::block::rotation::{Direction, Rotation};
use crate::geometry::Vector3;

verus! {

/// A block face or movement direction, vertical ones included.
#[derive(Clone, Copy, PartialEq, Eq, Debug, Structural)]
pub enum Facing {
    North,
    East,
    South,
    West,
    Up,
    Down,
}

impl Facing {
    pub open spec fn spec_opposite(self) -> Facing {
        match self {
            Facing::North => Facing::South,
            Facing::South => Facing::North,
            Facing::East => Facing::West,
            Facing::West => Facing::East,
            Facing::Up => Facing::Down,
            Facing::Down => Facing::Up,
        }
    }

    pub fn opposite(self) -> (f: Facing)
        ensures
            f == self.spec_opposite(),
    {
        match self {
            Facing::North => Facing::South,
            Facing::South => Facing::North,
            Facing::East => Facing::West,
            Facing::West => Facing::East,
            Facing::Up => Facing::Down,
            Facing::Down => Facing::Up,
        }
    }
}

/// Turning a facing around twice gives it back.
pub proof fn lemma_opposite_involution(f: Facing)
    ensures
        f.spec_opposite().spec_opposite() == f,
{
}

/// An axis of the block grid.
#[derive(Clone, Copy, PartialEq, Eq, Debug, Structural)]
pub enum Axis {
    X,
    Y,
    Z,
}

/// The screen a block opens when used.
#[derive(Clone, Copy, PartialEq, Eq, Debug, Structural)]
pub enum Screen {
    Anvil,
    SmithingTable,
    Stonecutter,
}

/// The statistic a block's use increments by one.
#[derive(Clone, Copy, PartialEq, Eq, Debug, Structural)]
pub enum InteractionStat {
    InteractWithAnvil,
    InteractWithSmithingTable,
    InteractWithStonecutter,
}

/// Using a workstation: the statistic to increment and the screen to open;
/// the use always succeeds.
#[derive(Clone, Copy, PartialEq, Eq, Debug, Structural)]
pub struct WorkstationUse {
    pub stat: InteractionStat,
    pub screen: Screen,
}

/// Anvils: placed facing the player's horizontal facing turned clockwise.
pub struct AnvilBlock;

impl AnvilBlock {
    pub fn placement_facing(player_facing: Direction) -> (d: Direction)
        ensures
            d == player_facing.spec_rotate(Rotation::Clockwise90),
    {
        player_facing.rotate(Rotation::Clockwise90)
    }

    pub fn normal_use(&self) -> (u: WorkstationUse)
        ensures
            u == (WorkstationUse { stat: InteractionStat::InteractWithAnvil, screen: Screen::Anvil }),
    {
        WorkstationUse { stat: InteractionStat::InteractWithAnvil, screen: Screen::Anvil }
    }
}

/// Smithing tables open the smithing screen.
pub struct SmithingTableBlock;

impl SmithingTableBlock {
    pub fn normal_use(&self) -> (u: WorkstationUse)
        ensures
            u == (WorkstationUse {
                stat: InteractionStat::InteractWithSmithingTable,
                screen: Screen::SmithingTable,
            }),
    {
        WorkstationUse { stat: InteractionStat::InteractWithSmithingTable, screen: Screen::SmithingTable }
    }
}

/// Stonecutters open the stonecutter screen.
pub struct StonecutterBlock;

impl StonecutterBlock {
    pub fn normal_use(&self) -> (u: WorkstationUse)
        ensures
            u == (WorkstationUse {
                stat: InteractionStat::InteractWithStonecutter,
                screen: Screen::Stonecutter,
            }),
    {
        WorkstationUse { stat: InteractionStat::InteractWithStonecutter, screen: Screen::Stonecutter }
    }
}

/// End rods: placed against the clicked face, unless that face is the back
/// of another end rod pointing at us, in which case the rods line up.
pub struct EndRodBlock;

impl EndRodBlock {
    /// `direction` is the clicked face; `neighbor_rod` is the facing of the
    /// end rod at the position `direction` points to, if there is one.
    pub fn placement_facing(direction: Facing, neighbor_rod: Option<Facing>) -> (f: Facing)
        ensures
            f == (if neighbor_rod == Some(direction.spec_opposite()) {
                direction
            } else {
                direction.spec_opposite()
            }),
    {
        let back = direction.opposite();
        match neighbor_rod {
            Some(n) => if n == back {
                direction
            } else {
                back
            },
            None => back,
        }
    }
}

/// Conduits: waterlogged when placed into a water source.
pub struct ConduitBlock;

impl ConduitBlock {
    pub fn placement_waterlogged(replacing_water_source: bool) -> (w: bool)
        ensures
            w == replacing_water_source,
    {
        replacing_water_source
    }
}

/// Mangrove roots: waterlogged when placed into a water source; a
/// waterlogged root schedules a water tick on every neighbor update.
pub struct MangroveRootsBlock;

impl MangroveRootsBlock {
    pub fn placement_waterlogged(replacing_water_source: bool) -> (w: bool)
        ensures
            w == replacing_water_source,
    {
        replacing_water_source
    }

    pub fn schedules_water_tick(waterlogged: bool) -> (r: bool)
        ensures
            r == waterlogged,
    {
        waterlogged
    }
}

/// The state property of a creaking heart.
#[derive(Clone, Copy, PartialEq, Eq, Debug, Structural)]
pub enum CreakingHeartState {
    Uprooted,
    Dormant,
    Awake,
}

/// The result of re-checking a creaking heart's logs.
#[derive(Clone, Copy, PartialEq, Eq, Debug, Structural)]
pub struct HeartUpdate {
    /// The state the heart ends in.
    pub state: CreakingHeartState,
    /// Whether the block state is rewritten.
    pub changed: bool,
    /// Whether the heart-spawn sound plays.
    pub spawn_sound: bool,
}

/// The registry ids of the pale oak log and of the stripped pale oak log.
#[derive(Clone, Copy, PartialEq, Eq, Debug, Structural)]
pub struct PaleOakLogs {
    pub log: BlockId,
    pub stripped: BlockId,
}

/// Creaking hearts: active between two pale oak logs along their axis.
pub struct CreakingHeartBlock;

impl CreakingHeartBlock {
    /// The axis a heart is placed along: that of the clicked face.
    pub fn placement_axis(direction: Facing) -> (a: Axis)
        ensures
            a == match direction {
                Facing::North | Facing::South => Axis::Z,
                Facing::East | Facing::West => Axis::X,
                Facing::Up | Facing::Down => Axis::Y,
            },
    {
        match direction {
            Facing::North | Facing::South => Axis::Z,
            Facing::East | Facing::West => Axis::X,
            Facing::Up | Facing::Down => Axis::Y,
        }
    }

    /// Whether `id` is a pale oak log, stripped or not; `logs` holds the two
    /// ids of the block registry.
    pub fn is_pale_oak_log(id: BlockId, logs: PaleOakLogs) -> (r: bool)
        ensures
            r == (id == logs.log || id == logs.stripped),
    {
        proof {
            BlockId::lemma_value_identifies(id, logs.log);
            BlockId::lemma_value_identifies(id, logs.stripped);
        }
        id.as_u16() == logs.log.as_u16() || id.as_u16() == logs.stripped.as_u16()
    }

    /// Whether the blocks at the two `log_positions` of a heart, `a` and
    /// `b`, are both pale oak logs.
    pub fn check_active_logs(a: BlockId, b: BlockId, logs: PaleOakLogs) -> (r: bool)
        ensures
            r == ((a == logs.log || a == logs.stripped) && (b == logs.log || b == logs.stripped)),
    {
        Self::is_pale_oak_log(a, logs) && Self::is_pale_oak_log(b, logs)
    }

    /// A freshly placed heart is uprooted.
    pub fn placement_state() -> (s: CreakingHeartState)
        ensures
            s == CreakingHeartState::Uprooted,
    {
        CreakingHeartState::Uprooted
    }

    /// The two positions whose logs keep a heart at `pos` active: west and
    /// east, below and above, or north and south.
    pub fn log_positions(pos: Vector3, axis: Axis) -> (r: (Vector3, Vector3))
        requires
            i32::MIN < pos.x < i32::MAX,
            i32::MIN < pos.y < i32::MAX,
            i32::MIN < pos.z < i32::MAX,
        ensures
            r == match axis {
                Axis::X => (
                    Vector3 { x: (pos.x - 1) as i32, ..pos },
                    Vector3 { x: (pos.x + 1) as i32, ..pos },
                ),
                Axis::Y => (
                    Vector3 { y: (pos.y - 1) as i32, ..pos },
                    Vector3 { y: (pos.y + 1) as i32, ..pos },
                ),
                Axis::Z => (
                    Vector3 { z: (pos.z - 1) as i32, ..pos },
                    Vector3 { z: (pos.z + 1) as i32, ..pos },
                ),
            },
    {
        match axis {
            Axis::X => (Vector3 { x: pos.x - 1, ..pos }, Vector3 { x: pos.x + 1, ..pos }),
            Axis::Y => (Vector3 { y: pos.y - 1, ..pos }, Vector3 { y: pos.y + 1, ..pos }),
            Axis::Z => (Vector3 { z: pos.z - 1, ..pos }, Vector3 { z: pos.z + 1, ..pos }),
        }
    }

    /// After placement: a heart between two pale oak logs turns dormant,
    /// with the spawn sound; otherwise nothing happens.
    pub fn on_placed(current: CreakingHeartState, active_logs: bool) -> (u: HeartUpdate)
        ensures
            active_logs ==> u == (HeartUpdate {
                state: CreakingHeartState::Dormant,
                changed: true,
                spawn_sound: true,
            }),
            !active_logs ==> u == (HeartUpdate { state: current, changed: false, spawn_sound: false }),
    {
        if active_logs {
            HeartUpdate { state: CreakingHeartState::Dormant, changed: true, spawn_sound: true }
        } else {
            HeartUpdate { state: current, changed: false, spawn_sound: false }
        }
    }

    /// On a neighbor update: dormant between two logs, uprooted otherwise;
    /// the spawn sound plays when an uprooted heart regains its logs.
    pub fn on_neighbor_update(current: CreakingHeartState, active_logs: bool) -> (u: HeartUpdate)
        ensures
            u.state == (if active_logs {
                CreakingHeartState::Dormant
            } else {
                CreakingHeartState::Uprooted
            }),
            u.changed == (u.state != current),
            u.spawn_sound == (active_logs && current == CreakingHeartState::Uprooted),
    {
        let state = if active_logs {
            CreakingHeartState::Dormant
        } else {
            CreakingHeartState::Uprooted
        };
        HeartUpdate {
            state,
            changed: state != current,
            spawn_sound: active_logs && current == CreakingHeartState::Uprooted,
        }
    }
}

} // verus!
