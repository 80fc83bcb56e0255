use verdantgolem::block::behaviour::{
    AnvilBlock, Axis, CreakingHeartBlock, CreakingHeartState, EndRodBlock, Facing, HeartUpdate,
    MangroveRootsBlock, PaleOakLogs, Screen, SmithingTableBlock, StonecutterBlock,
};
use verdantgolem::block::data::{BlockId, Flammable};
use verdantgolem::block::properties::{is_waterlogged, with_waterlogged};
use verdantgolem::block::rotation::{
    rotate_orientation, rotate_properties, rotate_rail_shape, Direction, Rotation,
};
use verdantgolem::geometry::Vector3;

fn props(pairs: &[(&str, &str)]) -> Vec<(String, String)> {
    pairs
        .iter()
        .map(|(k, v)| (k.to_string(), v.to_string()))
        .collect()
}

#[test]
fn rotates_directional_and_axis_block_states() {
    let north = props(&[("facing", "north"), ("triggered", "false")]);
    let rotated = rotate_properties(&north, Rotation::CounterClockwise90).unwrap();
    assert!(rotated.contains(&("facing".to_string(), "west".to_string())));

    let x_axis = props(&[("axis", "x")]);
    let rotated = rotate_properties(&x_axis, Rotation::Clockwise90).unwrap();
    assert!(rotated.contains(&("axis".to_string(), "z".to_string())));
}

#[test]
fn rotates_connection_keys_and_orientation_values() {
    let north = props(&[("north", "true"), ("east", "false"), ("south", "false"), ("west", "false")]);
    let rotated = rotate_properties(&north, Rotation::Clockwise90).unwrap();
    assert!(rotated.contains(&("east".to_string(), "true".to_string())));
    assert!(rotated.contains(&("north".to_string(), "false".to_string())));

    let north_up = props(&[("orientation", "north_up")]);
    let rotated = rotate_properties(&north_up, Rotation::Clockwise90).unwrap();
    assert!(rotated.contains(&("orientation".to_string(), "east_up".to_string())));
}

#[test]
fn unrotatable_states_stay_unchanged() {
    let plain = props(&[("powered", "true"), ("facing", "up")]);
    assert_eq!(rotate_properties(&plain, Rotation::Clockwise90), None);
    let axis_y = props(&[("axis", "y")]);
    assert_eq!(rotate_properties(&axis_y, Rotation::Clockwise90), None);
    let facing = props(&[("facing", "north")]);
    assert_eq!(rotate_properties(&facing, Rotation::Identity), None);
    let sign = props(&[("rotation", "15")]);
    assert_eq!(
        rotate_properties(&sign, Rotation::Rotate180),
        Some(props(&[("rotation", "7")]))
    );
}

#[test]
fn rail_and_orientation_rotations() {
    assert_eq!(rotate_rail_shape("north_south", Rotation::Clockwise90), Some("east_west"));
    assert_eq!(rotate_rail_shape("ascending_east", Rotation::Clockwise90), Some("ascending_south"));
    assert_eq!(rotate_rail_shape("south_east", Rotation::CounterClockwise90), Some("north_east"));
    assert_eq!(rotate_rail_shape("north_east", Rotation::Identity), Some("north_east"));
    assert_eq!(rotate_rail_shape("diagonal", Rotation::Clockwise90), None);
    assert_eq!(rotate_orientation("down_west", Rotation::Rotate180), Some("down_east".to_string()));
    assert_eq!(rotate_orientation("north", Rotation::Clockwise90), None);
    assert_eq!(rotate_orientation("north_sideways", Rotation::Clockwise90), None);
    assert_eq!(Rotation::Clockwise90.rotate_block_rotation(14), 2);
    assert_eq!(Direction::West.rotate(Rotation::Clockwise90), Direction::North);
}

#[test]
fn block_ids_stay_within_the_registry() {
    assert_eq!(BlockId::new(5, 10).map(BlockId::as_u16), Some(5));
    assert_eq!(BlockId::new(10, 10), None);
    assert_eq!(BlockId::new_or_air(12, 10), BlockId::air());
    assert_eq!(BlockId::air().as_u16(), 0);
    let id = BlockId::new_or_air(7, 10);
    assert!(id.has_tag(&[1, 7, 9]));
    assert!(!id.has_tag(&[1, 9]));
    let flammable = Flammable { spread_chance: 5, burn_chance: 20 };
    assert_eq!(flammable.burn_chance, 20);
}

#[test]
fn block_placement_decisions() {
    assert_eq!(AnvilBlock::placement_facing(Direction::North), Direction::East);
    assert_eq!(AnvilBlock.normal_use().screen, Screen::Anvil);
    assert_eq!(SmithingTableBlock.normal_use().screen, Screen::SmithingTable);
    assert_eq!(StonecutterBlock.normal_use().screen, Screen::Stonecutter);
    assert_eq!(EndRodBlock::placement_facing(Facing::Up, None), Facing::Down);
    assert_eq!(EndRodBlock::placement_facing(Facing::Up, Some(Facing::Down)), Facing::Up);
    assert_eq!(EndRodBlock::placement_facing(Facing::Up, Some(Facing::Up)), Facing::Down);
    assert!(MangroveRootsBlock::schedules_water_tick(true));
    assert_eq!(CreakingHeartBlock::placement_axis(Facing::East), Axis::X);
    assert_eq!(CreakingHeartBlock::placement_axis(Facing::North), Axis::Z);
    assert_eq!(
        CreakingHeartBlock::log_positions(Vector3::new(0, 64, 0), Axis::Y),
        (Vector3::new(0, 63, 0), Vector3::new(0, 65, 0))
    );
}

#[test]
fn creaking_heart_follows_its_logs() {
    assert_eq!(
        CreakingHeartBlock::on_neighbor_update(CreakingHeartState::Uprooted, true),
        HeartUpdate { state: CreakingHeartState::Dormant, changed: true, spawn_sound: true }
    );
    assert_eq!(
        CreakingHeartBlock::on_neighbor_update(CreakingHeartState::Dormant, true),
        HeartUpdate { state: CreakingHeartState::Dormant, changed: false, spawn_sound: false }
    );
    assert_eq!(
        CreakingHeartBlock::on_neighbor_update(CreakingHeartState::Awake, false),
        HeartUpdate { state: CreakingHeartState::Uprooted, changed: true, spawn_sound: false }
    );
    assert_eq!(
        CreakingHeartBlock::on_placed(CreakingHeartState::Uprooted, false).changed,
        false
    );
    assert_eq!(CreakingHeartBlock::placement_state(), CreakingHeartState::Uprooted);
}

#[test]
fn waterlogging_rewrites_only_a_dry_waterlogged_property() {
    let dry = props(&[("facing", "north"), ("waterlogged", "false")]);
    assert!(!is_waterlogged(&dry));
    let wet = with_waterlogged(Some(&dry)).unwrap();
    assert_eq!(wet, props(&[("facing", "north"), ("waterlogged", "true")]));
    assert!(is_waterlogged(&wet));
    assert_eq!(with_waterlogged(Some(&wet)), None);
    let without = props(&[("axis", "y")]);
    assert_eq!(with_waterlogged(Some(&without)), None);
    assert_eq!(with_waterlogged(Some(&Vec::new())), None);
    assert_eq!(with_waterlogged(None), None);
}

#[test]
fn rotations_compose_and_turn_back() {
    let turns = [Rotation::Identity, Rotation::Clockwise90, Rotation::Rotate180, Rotation::CounterClockwise90];
    for d in [Direction::North, Direction::East, Direction::South, Direction::West] {
        assert_eq!(d.rotate(Rotation::Clockwise90).rotate(Rotation::CounterClockwise90), d);
        let mut turned = d;
        for _ in 0..4 {
            turned = turned.rotate(Rotation::Clockwise90);
        }
        assert_eq!(turned, d);
        assert_eq!(
            d.rotate(Rotation::Clockwise90).rotate(Rotation::Rotate180),
            d.rotate(Rotation::CounterClockwise90)
        );
    }
    for (i, a) in turns.iter().enumerate() {
        for (j, b) in turns.iter().enumerate() {
            let both = turns[(i + j) % 4];
            for v in 0..16 {
                assert_eq!(b.rotate_block_rotation(a.rotate_block_rotation(v)), both.rotate_block_rotation(v));
            }
        }
    }
    let mut shape = "ascending_north";
    for _ in 0..4 {
        shape = rotate_rail_shape(shape, Rotation::Clockwise90).unwrap();
    }
    assert_eq!(shape, "ascending_north");
    for f in [Facing::North, Facing::East, Facing::South, Facing::West, Facing::Up, Facing::Down] {
        assert_eq!(f.opposite().opposite(), f);
        assert_ne!(f.opposite(), f);
    }
}

#[test]
fn creaking_heart_needs_two_pale_oak_logs() {
    let logs = PaleOakLogs {
        log: BlockId::new_or_air(40, 100),
        stripped: BlockId::new_or_air(41, 100),
    };
    let log = BlockId::new_or_air(40, 100);
    let stripped = BlockId::new_or_air(41, 100);
    let stone = BlockId::new_or_air(1, 100);
    assert!(CreakingHeartBlock::is_pale_oak_log(stripped, logs));
    assert!(!CreakingHeartBlock::is_pale_oak_log(stone, logs));
    assert!(CreakingHeartBlock::check_active_logs(log, stripped, logs));
    assert!(!CreakingHeartBlock::check_active_logs(log, stone, logs));
    assert!(!CreakingHeartBlock::check_active_logs(BlockId::air(), log, logs));
}
