//! Decisions taken on packets a player sends.

use vstd::prelude::*;
use crate::protocol::packets::SDebugSubscriptionRequest;

verus! {

/// An operator permission level, from none to full.
#[derive(Clone, Copy, PartialEq, Eq, Debug, Structural)]
pub enum PermissionLvl {
    Zero,
    One,
    Two,
    Three,
    Four,
}

impl PermissionLvl {
    pub open spec fn level(self) -> nat {
        match self {
            PermissionLvl::Zero => 0,
            PermissionLvl::One => 1,
            PermissionLvl::Two => 2,
            PermissionLvl::Three => 3,
            PermissionLvl::Four => 4,
        }
    }

    /// Whether this level is at least `other`.
    pub fn at_least(self, other: PermissionLvl) -> (r: bool)
        ensures
            r == (self.level() >= other.level()),
    {
        let a: u8 = match self {
            PermissionLvl::Zero => 0,
            PermissionLvl::One => 1,
            PermissionLvl::Two => 2,
            PermissionLvl::Three => 3,
            PermissionLvl::Four => 4,
        };
        let b: u8 = match other {
            PermissionLvl::Zero => 0,
            PermissionLvl::One => 1,
            PermissionLvl::Two => 2,
            PermissionLvl::Three => 3,
            PermissionLvl::Four => 4,
        };
        a >= b
    }
}

/// A player of permission level two or more who asks for tick-time samples
/// is subscribed to them; any other request changes nothing.
pub fn handle_debug_sample_subscription(
    permission: PermissionLvl,
    packet: &SDebugSubscriptionRequest,
    subscribed: &mut bool,
)
    ensures
        *final(subscribed) == (*old(subscribed) || (permission.level() >= 2 && packet.sample_type.0
            == SDebugSubscriptionRequest::TICK_TIME)),
{
    if permission.at_least(PermissionLvl::Two) && packet.sample_type.0
        == SDebugSubscriptionRequest::TICK_TIME {
        *subscribed = true;
    }
}

} // verus!
