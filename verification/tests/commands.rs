use verdantgolem::text::{
    i64_to_text, parse_i32, parse_i64, parse_usize, str_eq_ignore_ascii_case, str_lt,
    strip_minecraft_namespace, u64_to_text,
};
use verdantgolem::carpet::counters::{add, HopperCounters};
use verdantgolem::command::counter::{all_channels_summary, channel_report, item_total, reset_message};
use verdantgolem::command::draw::{draw_flags, draw_message, in_shape, parse_radius};
use verdantgolem::command::fill::{
    check_fill_size, fill_action, fill_flags, fill_limit_message, fill_outcome, BlockFlags,
    BlockPredicate, FillAction, FillError, FillTally, FillerResult, Mode,
};
use verdantgolem::command::forceload::{
    chunk_list, chunk_of_column, forceload_feedback, forceload_limit, query_result, ChunkArea,
    ForceloadError, ForceloadFeedback, ForcedChunks,
};
use verdantgolem::command::perimeter::{scan_bounds, SpawnLevels};
use verdantgolem::command::player::{
    action_message, invalid_value, list_message, mounted_message, refusal_message, toggle_attack,
    PlayerAction, PlayerRefusal,
};
use verdantgolem::command::spawn::{mobcap_line, mobcaps_header};
use verdantgolem::carpet::fake_player;
use verdantgolem::geometry::{
    checked_region_volume, chunk_coord, command_count, inclusive_chunk_area, inclusive_span, Region,
    Vector3,
};

#[test]
fn command_result_saturates_large_totals() {
    assert_eq!(command_count(u64::MAX), i32::MAX);
    assert_eq!(command_count(42), 42);
}

#[test]
fn displayed_total_saturates() {
    let items = vec![("a".to_string(), u64::MAX), ("b".to_string(), 1)];
    assert_eq!(item_total(&items), u64::MAX);
}

#[test]
fn chunk_area_uses_checked_wide_arithmetic() {
    assert_eq!(inclusive_chunk_area(-2, 2, -3, 3), Some(35));
    assert_eq!(
        inclusive_chunk_area(i32::MIN, i32::MAX, 0, 0),
        Some(u64::from(u32::MAX) + 1)
    );
    assert_eq!(
        inclusive_chunk_area(i32::MIN, i32::MAX, i32::MIN, i32::MAX),
        None
    );
}

#[test]
fn command_result_saturates() {
    assert_eq!(command_count(u64::MAX), i32::MAX);
}

#[test]
fn chunk_coordinates_floor_towards_negative_infinity() {
    assert_eq!(chunk_coord(0), 0);
    assert_eq!(chunk_coord(15), 0);
    assert_eq!(chunk_coord(16), 1);
    assert_eq!(chunk_coord(-1), -1);
    assert_eq!(chunk_coord(-16), -1);
    assert_eq!(chunk_coord(-17), -2);
    assert_eq!(chunk_of_column(33, -1), (2, -1));
    assert_eq!(inclusive_span(3, 1), None);
    assert_eq!(inclusive_span(3, 2), Some(0));
}

#[test]
fn forceload_add_remove_and_query() {
    let mut forced = ForcedChunks::new();
    let area = ChunkArea::between_columns((0, 0), (31, 15));
    assert_eq!(area, ChunkArea { min_x: 0, max_x: 1, min_z: 0, max_z: 0 });
    assert_eq!(forced.add_area(area, 256), Ok(vec![(0, 0), (1, 0)]));
    assert!(forced.contains((1, 0)));
    assert_eq!(forced.add_area(area, 256), Err(ForceloadError::Unchanged));
    let single = ChunkArea::between_columns((20, 0), (20, 0));
    assert_eq!(forced.remove_area(single, 256), Ok(vec![(1, 0)]));
    assert_eq!(forced.remove_area(single, 256), Err(ForceloadError::Unchanged));
    assert_eq!(chunk_list(&forced.positions()), "[0, 0]");
    assert_eq!(query_result(forced.contains((0, 0))), 1);
    assert_eq!(query_result(forced.contains((5, 5))), 0);
    assert_eq!(forced.remove_all(), vec![(0, 0)]);
    assert!(forced.positions().is_empty());
}

#[test]
fn forceload_limit_is_clamped_and_enforced() {
    assert_eq!(forceload_limit(0), 1);
    assert_eq!(forceload_limit(i64::MAX), i32::MAX as u64);
    let mut forced = ForcedChunks::new();
    let area = ChunkArea { min_x: 0, max_x: 1, min_z: 0, max_z: 1 };
    assert_eq!(
        forced.add_area(area, 3),
        Err(ForceloadError::TooManyChunks { limit: 3, requested: 4 })
    );
    assert_eq!(
        forceload_feedback(area, 4),
        ForceloadFeedback::Multiple { count: 4, min_x: 0, min_z: 0, max_x: 1, max_z: 1 }
    );
    assert_eq!(forceload_feedback(area, 1), ForceloadFeedback::Single { x: 0, z: 0 });
    assert_eq!(chunk_list(&vec![(1, -2), (3, 4)]), "[1, -2], [3, 4]");
}

#[test]
fn volume_math_is_checked_and_wide() {
    assert_eq!(
        checked_region_volume(Vector3::new(-1, 0, -2), Vector3::new(1, 3, 2)),
        Some(60)
    );
    assert_eq!(
        checked_region_volume(
            Vector3::new(i32::MIN, i32::MIN, i32::MIN),
            Vector3::new(i32::MAX, i32::MAX, i32::MAX)
        ),
        None
    );
}

#[test]
fn disabled_updates_skip_added_callbacks() {
    assert_eq!(fill_flags(true), BlockFlags::force_state());
    let quiet = fill_flags(false);
    assert!(quiet.contains(BlockFlags::force_state()));
    assert!(quiet.contains(BlockFlags::skip_block_added_callback()));
    assert!(!quiet.contains(BlockFlags::notify_neighbors()));
}

#[test]
fn region_walk_visits_every_position_in_order() {
    let region = Region::spanning(Vector3::new(1, 1, 1), Vector3::new(0, 0, 0));
    let mut seen = vec![region.first()];
    while let Some(next) = region.next(*seen.last().unwrap()) {
        seen.push(next);
    }
    assert_eq!(seen.len(), 8);
    assert_eq!(seen[0], Vector3::new(0, 0, 0));
    assert_eq!(seen[1], Vector3::new(0, 0, 1));
    assert_eq!(seen[2], Vector3::new(0, 1, 0));
    assert_eq!(seen[7], Vector3::new(1, 1, 1));
}

#[test]
fn fill_modes_decide_per_position() {
    let region = Region::spanning(Vector3::new(0, 0, 0), Vector3::new(2, 2, 2));
    let inner = Vector3::new(1, 1, 1);
    let face = Vector3::new(0, 1, 1);
    assert_eq!(fill_action(Mode::Hollow, &region, inner, 1, false, &None), FillAction::Clear);
    assert_eq!(fill_action(Mode::Hollow, &region, face, 1, false, &None), FillAction::Place);
    assert_eq!(fill_action(Mode::Outline, &region, inner, 1, false, &None), FillAction::Skip);
    assert_eq!(fill_action(Mode::Keep, &region, inner, 1, false, &None), FillAction::Skip);
    assert_eq!(fill_action(Mode::Keep, &region, inner, 0, true, &None), FillAction::Place);
    assert_eq!(
        fill_action(Mode::Destroy, &region, inner, 1, false, &None),
        FillAction::DestroyAndPlace
    );
    assert_eq!(
        fill_action(Mode::Strict, &region, inner, 1, false, &None),
        FillAction::PlaceQuietly
    );
    let filter = Some(BlockPredicate::Tag(vec![3, 4]));
    assert_eq!(fill_action(Mode::Replace, &region, inner, 5, false, &filter), FillAction::Skip);
    assert_eq!(fill_action(Mode::Replace, &region, inner, 4, false, &filter), FillAction::Place);
    let single = Some(BlockPredicate::Block(9));
    assert_eq!(fill_action(Mode::Replace, &region, inner, 8, false, &single), FillAction::Skip);
    assert_eq!(FillAction::PlaceQuietly.result(), FillerResult::PlacedBlockWithoutUpdate);
    assert_eq!(Mode::default(), Mode::Replace);
}

#[test]
fn fill_counts_and_limits() {
    let mut tally = FillTally::new();
    tally.record(FillerResult::PlacedBlock, Vector3::new(0, 0, 0));
    tally.record(FillerResult::PlacedBlockWithoutUpdate, Vector3::new(0, 0, 1));
    tally.record(FillerResult::DidNotPlaceBlock, Vector3::new(0, 0, 2));
    assert_eq!(tally.placed(), 2);
    assert_eq!(fill_outcome(tally.placed()), Ok(2));
    assert_eq!(tally.updates(true), vec![Vector3::new(0, 0, 0)]);
    assert_eq!(fill_outcome(0), Err(FillError::Failed));
    let region = Region::spanning(Vector3::new(0, 0, 0), Vector3::new(9, 9, 9));
    assert_eq!(check_fill_size(&region, 32768, 32768), Ok(1000));
    assert_eq!(
        check_fill_size(&region, 999, 32768),
        Err(FillError::TooBig { max: 999, total: 1000 })
    );
    assert_eq!(
        check_fill_size(&region, 32768, 500),
        Err(FillError::OverFillLimit { total: 1000, limit: 500 })
    );
    assert_eq!(
        fill_limit_message(1000, 500),
        "Too many blocks to fill: 1000 is larger than fillLimit 500"
    );
}

#[test]
fn draw_shapes_and_radius() {
    assert_eq!(parse_radius("3"), Ok(3));
    assert_eq!(parse_radius("x"), Err("Invalid value for radius".to_string()));
    assert_eq!(parse_radius("17"), Err("radius must be between 1 and 16".to_string()));
    assert_eq!(parse_radius("0"), Err("radius must be between 1 and 16".to_string()));
    assert!(in_shape(true, 3, 0, 0, 0));
    assert!(!in_shape(false, 3, 0, 0, 0));
    assert!(in_shape(false, 3, 3, 0, 0));
    assert!(in_shape(false, 3, 2, 0, 0));
    assert!(!in_shape(false, 3, 1, 0, 0));
    assert!(!in_shape(true, 3, 3, 3, 0));
    assert_eq!(draw_flags(true).0, 5);
    assert_eq!(draw_flags(false), BlockFlags::force_state());
    assert_eq!(draw_message(true, 4, 10), "Drew a ball of radius 4: 10 blocks placed");
}

#[test]
fn draw_shell_matches_floating_point_test() {
    for radius in 1..=16i32 {
        let radius_sq = f64::from(radius).powi(2);
        let shell_inner = (f64::from(radius) - 1.5).powi(2);
        for dx in -radius..=radius {
            for dy in -radius..=radius {
                for dz in -radius..=radius {
                    let dist_sq = f64::from(dx * dx + dy * dy + dz * dz);
                    let hollow = dist_sq <= radius_sq && dist_sq >= shell_inner;
                    assert_eq!(in_shape(false, radius, dx, dy, dz), hollow);
                    assert_eq!(in_shape(true, radius, dx, dy, dz), dist_sq <= radius_sq);
                }
            }
        }
    }
}

#[test]
fn perimeter_reports_busiest_levels() {
    assert_eq!(scan_bounds(0, 0), Some((-16, 16, -16, 16)));
    assert_eq!(scan_bounds(i32::MAX, 0), None);
    let mut levels = SpawnLevels::new();
    for y in [64, 64, 70, 12, 70, 64, 3, 4, 5, 6] {
        levels.record(y);
    }
    assert_eq!(levels.total(), 10);
    assert_eq!(levels.command_result(), 10);
    let ranked = levels.ranked();
    assert_eq!(ranked[0], (64, 3));
    assert_eq!(ranked[1], (70, 2));
    assert_eq!(ranked[2], (3, 1));
    assert_eq!(
        levels.report("1, 2, 3"),
        "Spawnable spots for monsters within 16 blocks of 1, 2, 3: 10\nHighest chance levels:\ny=64: 3 spots\ny=70: 2 spots\ny=3: 1 spots\ny=4: 1 spots\ny=5: 1 spots"
    );
    assert_eq!(
        SpawnLevels::new().report("0, 0, 0"),
        "Spawnable spots for monsters within 16 blocks of 0, 0, 0: 0\nThe perimeter is fully spawnproof!"
    );
}

#[test]
fn counter_reports() {
    let mut counters = HopperCounters::new();
    add(&mut counters, 5, "minecraft:cobblestone", 7);
    add(&mut counters, 5, "minecraft:diamond", 1);
    assert_eq!(all_channels_summary(&counters), "Hopper counters:\nlime: 8 items");
    let (text, result) = channel_report(&counters, 5);
    assert_eq!(text, "lime: 8 items total\nminecraft:cobblestone: 7\nminecraft:diamond: 1");
    assert_eq!(result, 8);
    assert_eq!(reset_message(Some(5)), "Reset hopper counter for lime");
    assert_eq!(reset_message(None), "Reset hopper counter for all channels");
}

#[test]
fn mobcap_lines() {
    assert_eq!(mobcaps_header(17), "Mobcaps (17 spawnable chunks):");
    assert_eq!(mobcap_line(0, 5, Some(70)), "\nmonster: 5/70");
    assert_eq!(mobcap_line(7, 2, None), "\nmisc: 2");
}

#[test]
fn player_command_answers() {
    assert_eq!(list_message(&vec![]), "No fake players are online.");
    assert_eq!(
        list_message(&vec!["a_bot".to_string(), "b_bot".to_string()]),
        "Fake players (2): a_bot, b_bot"
    );
    let mut fakes = fake_player::FakePlayers::new();
    fake_player::insert(&mut fakes, "a_bot", 1, 0);
    assert_eq!(toggle_attack(&mut fakes, "a_bot"), Ok("Started attacking for a_bot".to_string()));
    assert_eq!(toggle_attack(&mut fakes, "a_bot"), Ok("Stopped attacking for a_bot".to_string()));
    assert_eq!(
        toggle_attack(&mut fakes, "nobody"),
        Err("no fake player named nobody".to_string())
    );
}

#[test]
fn text_helpers_follow_std() {
    assert_eq!(u64_to_text(u64::MAX), u64::MAX.to_string());
    assert_eq!(i64_to_text(i64::MIN), i64::MIN.to_string());
    assert_eq!(parse_i32("-2147483648"), Some(i32::MIN));
    assert_eq!(parse_i32("2147483648"), None);
    assert_eq!(parse_i64("+17"), Some(17));
    assert_eq!(parse_i64(""), None);
    assert_eq!(parse_usize("0042"), Some(42));
    assert_eq!(parse_usize("-1"), None);
    assert!(str_eq_ignore_ascii_case("Steve", "sTEVE"));
    assert!(!str_eq_ignore_ascii_case("Steve", "Steven"));
    assert!(str_lt("abc", "abd"));
    assert!(!str_lt("b", "abc"));
    assert_eq!(strip_minecraft_namespace("minecraft:speed"), "speed");
    assert_eq!(strip_minecraft_namespace("speed"), "speed");
}

#[test]
fn player_actions_are_answered() {
    assert_eq!(action_message(PlayerAction::Spawned, "bot"), "Spawned fake player bot");
    assert_eq!(action_message(PlayerAction::Removed, "bot"), "Removed fake player bot");
    assert_eq!(action_message(PlayerAction::Sneak { sneaking: true }, "bot"), "bot is sneaking");
    assert_eq!(
        action_message(PlayerAction::Sneak { sneaking: false }, "bot"),
        "bot is no longer sneaking"
    );
    assert_eq!(action_message(PlayerAction::Jumped, "bot"), "bot jumped");
    assert_eq!(action_message(PlayerAction::Dropped, "bot"), "bot dropped an item");
    assert_eq!(action_message(PlayerAction::Dismounted, "bot"), "bot dismounted");
    assert_eq!(action_message(PlayerAction::Stopped, "bot"), "Stopped actions of bot");
    assert_eq!(mounted_message("bot", "minecraft:boat"), "bot mounted minecraft:boat");
    assert_eq!(refusal_message(PlayerRefusal::UnknownFake, "bot"), "No fake player named bot");
    assert_eq!(
        refusal_message(PlayerRefusal::Airborne, "bot"),
        "Fake player bot cannot jump while airborne"
    );
    assert_eq!(refusal_message(PlayerRefusal::NoVehicle, "bot"), "no mountable entity near bot");
    assert_eq!(refusal_message(PlayerRefusal::NotRiding, "bot"), "bot is not riding anything");
    assert_eq!(
        refusal_message(PlayerRefusal::NoWorld, "bot"),
        "Fake players must be spawned by an in-game player."
    );
    assert_eq!(invalid_value("yaw"), "Invalid value for yaw");
}
