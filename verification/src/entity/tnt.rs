//! Primed TNT: the fuse, and the `mergeTNT` rule that lets one entity absorb
//! identical stationary peers while keeping the number of explosions.

use vstd::prelude::*;
use crate::float_bits::{eq_bits, f64_bits_eq};

verus! {

/// Ticks between merge attempts.
pub const MERGE_INTERVAL: u32 = 20;

/// A vector of three `f64` values, held as their bit patterns.
#[derive(Clone, Copy, PartialEq, Eq, Debug, Structural)]
pub struct Vec3Bits {
    pub x: u64,
    pub y: u64,
    pub z: u64,
}

impl Vec3Bits {
    /// Component-wise `==` of the denoted values.
    pub open spec fn same_as(self, other: Vec3Bits) -> bool {
        f64_bits_eq(self.x, other.x) && f64_bits_eq(self.y, other.y) && f64_bits_eq(self.z, other.z)
    }

    /// Every component equals `0.0`.
    pub open spec fn is_zero(self) -> bool {
        f64_bits_eq(self.x, 0) && f64_bits_eq(self.y, 0) && f64_bits_eq(self.z, 0)
    }
}

/// What a merge compares of a TNT entity.
#[derive(Clone, Copy, PartialEq, Eq, Debug, Structural)]
pub struct MergeSnapshot {
    pub position: Vec3Bits,
    pub velocity: Vec3Bits,
    pub on_ground: bool,
    pub fuse: u32,
    /// The bit pattern of the explosion power (`f32`).
    pub power_bits: u32,
}

impl MergeSnapshot {
    pub open spec fn spec_is_stationary(self) -> bool {
        self.on_ground && self.velocity.is_zero()
    }

    pub open spec fn spec_compatible_with(self, other: MergeSnapshot) -> bool {
        &&& self.spec_is_stationary()
        &&& other.spec_is_stationary()
        &&& self.position.same_as(other.position)
        &&& self.fuse == other.fuse
        &&& self.power_bits == other.power_bits
    }

    /// On the ground and not moving.
    pub fn is_stationary(&self) -> (r: bool)
        ensures
            r == self.spec_is_stationary(),
    {
        self.on_ground && eq_bits(self.velocity.x, 0) && eq_bits(self.velocity.y, 0) && eq_bits(
            self.velocity.z,
            0,
        )
    }

    /// Both stationary, at the same position, with the same fuse and power.
    pub fn compatible_with(&self, other: &MergeSnapshot) -> (r: bool)
        ensures
            r == self.spec_compatible_with(*other),
    {
        self.is_stationary() && other.is_stationary() && eq_bits(self.position.x, other.position.x)
            && eq_bits(self.position.y, other.position.y) && eq_bits(
            self.position.z,
            other.position.z,
        ) && self.fuse == other.fuse && self.power_bits == other.power_bits
    }
}

/// Two TNT entities merge exactly when both rest on the ground without
/// moving and they agree, as `f64` values, on all three coordinates of their
/// position, and on fuse and power; whether they merge does not depend on
/// which of the two asks.
pub proof fn lemma_merge_needs_identical_state(a: MergeSnapshot, b: MergeSnapshot)
    ensures
        a.spec_compatible_with(b) ==> f64_bits_eq(a.position.x, b.position.x) && f64_bits_eq(
            a.position.y,
            b.position.y,
        ) && f64_bits_eq(a.position.z, b.position.z),
        a.spec_compatible_with(b) ==> a.fuse == b.fuse && a.power_bits == b.power_bits && a.on_ground
            && b.on_ground,
        a.spec_compatible_with(b) ==> f64_bits_eq(a.velocity.x, 0) && f64_bits_eq(a.velocity.y, 0)
            && f64_bits_eq(a.velocity.z, 0) && f64_bits_eq(b.velocity.x, 0) && f64_bits_eq(b.velocity.y, 0)
            && f64_bits_eq(b.velocity.z, 0),
        !f64_bits_eq(a.position.x, b.position.x) || !f64_bits_eq(a.position.y, b.position.y)
            || !f64_bits_eq(a.position.z, b.position.z) ==> !a.spec_compatible_with(b),
        a.spec_compatible_with(b) == b.spec_compatible_with(a),
        a.on_ground && b.on_ground && f64_bits_eq(a.velocity.x, 0) && f64_bits_eq(a.velocity.y, 0)
            && f64_bits_eq(a.velocity.z, 0) && f64_bits_eq(b.velocity.x, 0) && f64_bits_eq(b.velocity.y, 0)
            && f64_bits_eq(b.velocity.z, 0) && f64_bits_eq(a.position.x, b.position.x) && f64_bits_eq(
            a.position.y,
            b.position.y,
        ) && f64_bits_eq(a.position.z, b.position.z) && a.fuse == b.fuse && a.power_bits == b.power_bits
            ==> a.spec_compatible_with(b),
{
}

/// Another TNT entity of the world, as a merge sees it.
#[derive(Clone, Copy, PartialEq, Eq, Debug, Structural)]
pub struct MergeCandidate {
    pub entity_id: i32,
    pub removed: bool,
    pub snapshot: MergeSnapshot,
    pub merged_count: u32,
}

/// Whether `c` could be absorbed by the entity `own_id` with snapshot `own`.
pub open spec fn eligible(own: MergeSnapshot, own_id: i32, c: MergeCandidate) -> bool {
    c.entity_id != own_id && !c.removed && own.spec_compatible_with(c.snapshot) && c.merged_count > 0
}

/// The candidates an entity absorbs: every eligible one, in order, provided
/// the entity is stationary, still counts explosions, and has the lowest id
/// among its eligible peers; otherwise none.
pub fn merge_targets(
    own: &MergeSnapshot,
    own_id: i32,
    own_count: u32,
    candidates: &Vec<MergeCandidate>,
) -> (targets: Vec<usize>)
    ensures
        !own.spec_is_stationary() || own_count == 0 ==> targets@.len() == 0,
        (exists|i: int| 0 <= i < candidates@.len() && eligible(*own, own_id, #[trigger] candidates@[i])
            && candidates@[i].entity_id < own_id) ==> targets@.len() == 0,
        own.spec_is_stationary() && own_count > 0 && (forall|i: int| 0 <= i < candidates@.len()
            && eligible(*own, own_id, #[trigger] candidates@[i]) ==> candidates@[i].entity_id
            >= own_id) ==> {
            &&& forall|k: int| 0 <= k < targets@.len() ==> targets@[k] < candidates@.len()
                && eligible(*own, own_id, candidates@[targets@[k] as int])
            &&& forall|k: int, l: int| 0 <= k < l < targets@.len() ==> targets@[k] < targets@[l]
            &&& forall|i: int| 0 <= i < candidates@.len() && eligible(*own, own_id, #[trigger] candidates@[i])
                ==> targets@.contains(i as usize)
        },
{
    let mut targets: Vec<usize> = Vec::new();
    if !own.is_stationary() || own_count == 0 {
        return targets;
    }
    let mut i: usize = 0;
    while i < candidates.len()
        invariant
            i <= candidates@.len(),
            own.spec_is_stationary(),
            own_count > 0,
            forall|k: int| 0 <= k < targets@.len() ==> targets@[k] < i && eligible(*own, own_id, candidates@[targets@[k] as int]),
            forall|k: int, l: int| 0 <= k < l < targets@.len() ==> targets@[k] < targets@[l],
            forall|j: int| 0 <= j < i && eligible(*own, own_id, #[trigger] candidates@[j]) ==> targets@.contains(j as usize) && candidates@[j].entity_id >= own_id,
        decreases candidates@.len() - i,
    {
        let c = candidates[i];
        if c.entity_id != own_id && !c.removed && own.compatible_with(&c.snapshot) && c.merged_count > 0 {
            if c.entity_id < own_id {
                return Vec::new();
            }
            let ghost before = targets@;
            targets.push(i);
            assert(targets@[before.len() as int] == i);
            assert forall|j: int| 0 <= j < i + 1 && eligible(*own, own_id, #[trigger] candidates@[j]) implies targets@.contains(j as usize) by {
                if j < i {
                    let k = choose|k: int| 0 <= k < before.len() && before[k] == j as usize;
                    assert(targets@[k] == j as usize);
                }
            }
        }
        i = i + 1;
    }
    targets
}

/// `current + amount`, stopping at `u32::MAX`: the merged explosion count.
pub fn merged_total(current: u32, amount: u32) -> (r: u32)
    ensures
        r == (if current + amount > u32::MAX { u32::MAX as int } else { current + amount }),
{
    current.saturating_add(amount)
}

/// Whether this tick tries a merge: the rule is on, the entity rests on the
/// ground, and the fuse is a multiple of `MERGE_INTERVAL`.
pub fn should_try_merge(merge_tnt: bool, on_ground: bool, fuse: u32) -> (r: bool)
    ensures
        r == (merge_tnt && on_ground && fuse % MERGE_INTERVAL == 0),
{
    merge_tnt && on_ground && fuse % MERGE_INTERVAL == 0
}

/// What a tick does with the fuse.
#[derive(Clone, Copy, PartialEq, Eq, Debug, Structural)]
pub enum FuseStep {
    /// The entity is removed and its merged explosions go off.
    Explode,
    /// The fuse burns down to `remaining`.
    Burn { remaining: u32 },
}

/// A fuse of one tick or less explodes; a longer one burns down by one tick.
pub fn fuse_step(fuse: u32) -> (s: FuseStep)
    ensures
        fuse <= 1 ==> s == FuseStep::Explode,
        fuse > 1 ==> s == (FuseStep::Burn { remaining: (fuse - 1) as u32 }),
{
    if fuse <= 1 {
        FuseStep::Explode
    } else {
        FuseStep::Burn { remaining: fuse - 1 }
    }
}

} // verus!
