use verdantgolem::entity::tnt::{
    fuse_step, merge_targets, merged_total, should_try_merge, FuseStep, MergeCandidate,
    MergeSnapshot, Vec3Bits,
};
use verdantgolem::item::{FireChargeItem, GameMode, MaceItem, SpyglassItem, SwordItem};

fn bits(x: f64, y: f64, z: f64) -> Vec3Bits {
    Vec3Bits { x: x.to_bits(), y: y.to_bits(), z: z.to_bits() }
}

fn snapshot(position: Vec3Bits, velocity: Vec3Bits, fuse: u32) -> MergeSnapshot {
    MergeSnapshot {
        position,
        velocity,
        on_ground: true,
        fuse,
        power_bits: 4.0f32.to_bits(),
    }
}

#[test]
fn merge_requires_identical_stationary_state() {
    let position = bits(1.0, 2.0, 3.0);
    let stationary = bits(0.0, 0.0, 0.0);
    let own = snapshot(position, stationary, 40);

    assert!(own.compatible_with(&snapshot(position, stationary, 40)));
    assert!(!own.compatible_with(&snapshot(bits(1.01, 2.0, 3.0), stationary, 40)));
    assert!(!own.compatible_with(&snapshot(position, bits(0.01, 0.0, 0.0), 40)));
    assert!(!own.compatible_with(&snapshot(position, stationary, 39)));

    let mut airborne = own;
    airborne.on_ground = false;
    assert!(!own.compatible_with(&airborne));
}

#[test]
fn negative_zero_counts_as_stationary() {
    let own = snapshot(bits(1.0, 2.0, 3.0), bits(-0.0, 0.0, -0.0), 20);
    assert!(own.is_stationary());
    let nan = snapshot(bits(f64::NAN, 2.0, 3.0), bits(0.0, 0.0, 0.0), 20);
    assert!(!nan.compatible_with(&nan));
}

#[test]
fn lowest_id_absorbs_its_peers() {
    let own = snapshot(bits(1.0, 2.0, 3.0), bits(0.0, 0.0, 0.0), 40);
    let peer = |entity_id: i32, merged_count: u32| MergeCandidate {
        entity_id,
        removed: false,
        snapshot: own,
        merged_count,
    };
    let candidates = vec![peer(12, 1), peer(11, 0), peer(13, 2)];
    assert_eq!(merge_targets(&own, 10, 1, &candidates), vec![0, 2]);
    assert!(merge_targets(&own, 12, 1, &vec![peer(10, 1)]).is_empty());
    assert!(merge_targets(&own, 10, 0, &candidates).is_empty());
    assert_eq!(merged_total(u32::MAX - 1, 5), u32::MAX);
    assert_eq!(merged_total(2, 3), 5);
    assert!(should_try_merge(true, true, 40));
    assert!(!should_try_merge(true, true, 41));
    assert_eq!(fuse_step(1), FuseStep::Explode);
    assert_eq!(fuse_step(80), FuseStep::Burn { remaining: 79 });
}

#[test]
fn items_follow_game_mode() {
    assert!(MaceItem.can_mine(GameMode::Survival));
    assert!(!MaceItem.can_mine(GameMode::Creative));
    assert!(!SwordItem.can_mine(GameMode::Creative));
    assert!(SwordItem.can_mine(GameMode::Adventure));
    assert_eq!(SpyglassItem.get_use_duration(), 1200);
    assert_eq!(SpyglassItem::USE_DURATION, 1200);
    assert_eq!(FireChargeItem.ignition_flags().0, 3);
}
