//! What the customised items decide.

use vstd::prelude::*;
use crate::command::fill::BlockFlags;

verus! {

/// A player's game mode.
#[derive(Clone, Copy, PartialEq, Eq, Debug, Structural)]
pub enum GameMode {
    Survival,
    Creative,
    Adventure,
    Spectator,
}

/// Maces do not break blocks in creative mode.
pub struct MaceItem;

impl MaceItem {
    pub fn can_mine(&self, gamemode: GameMode) -> (r: bool)
        ensures
            r == (gamemode != GameMode::Creative),
    {
        gamemode != GameMode::Creative
    }
}

/// Swords do not break blocks in creative mode.
pub struct SwordItem;

impl SwordItem {
    pub fn can_mine(&self, gamemode: GameMode) -> (r: bool)
        ensures
            r == (gamemode != GameMode::Creative),
    {
        gamemode != GameMode::Creative
    }
}

/// Spyglasses are held up for at most a minute.
pub struct SpyglassItem;

impl SpyglassItem {
    /// Ticks a spyglass stays in use.
    pub const USE_DURATION: i32 = 1200;

    pub fn get_use_duration(&self) -> (d: i32)
        ensures
            d == Self::USE_DURATION,
    {
        Self::USE_DURATION
    }
}

/// Fire charges ignite the clicked block or the one in front of its face.
pub struct FireChargeItem;

impl FireChargeItem {
    /// The flags the fire is placed with: neighbors and listeners notified.
    pub fn ignition_flags(&self) -> (f: BlockFlags)
        ensures
            f.0 == 3,
    {
        BlockFlags(3)
    }
}

} // verus!
