use verdantgolem::carpet::counters::{
    add, channel_from_name, reset, snapshot, total, wool_channel, HopperCounters, CHANNEL_NAMES,
};
use verdantgolem::carpet::fake_player;
use verdantgolem::carpet::loggers::{self, Logger, Subscriptions};
use verdantgolem::carpet::registry::{CarpetRules, Rule, RuleCategory, RuleValue, ValueKind};
use verdantgolem::carpet::spawn_tracking::SpawnTracker;
use verdantgolem::command::carpet::{
    changed_rules, list_rules, parse_category, parse_value, reset_rule, root_message, set_rule,
};

fn parsed_float(raw: &str) -> Option<u64> {
    raw.parse::<f64>().ok().map(f64::to_bits)
}

#[test]
fn channel_names_round_trip() {
    for (index, name) in CHANNEL_NAMES.iter().enumerate() {
        assert_eq!(channel_from_name(name), Some(index));
    }
    assert_eq!(channel_from_name("#3"), Some(3));
    assert_eq!(channel_from_name("diamond"), None);
}

#[test]
fn wool_channels_cover_all_sixteen_colors() {
    for (index, block) in [
        "white_wool",
        "orange_wool",
        "magenta_wool",
        "light_blue_wool",
        "yellow_wool",
        "lime_wool",
        "pink_wool",
        "gray_wool",
        "light_gray_wool",
        "cyan_wool",
        "purple_wool",
        "blue_wool",
        "brown_wool",
        "green_wool",
        "red_wool",
        "black_wool",
    ]
    .into_iter()
    .enumerate()
    {
        assert_eq!(wool_channel(block), Some(index));
    }
    assert_eq!(wool_channel("stone"), None);
}

#[test]
fn add_snapshot_and_reset() {
    let mut counters = HopperCounters::new();
    let channel = channel_from_name("lime").unwrap_or(5);
    reset(&mut counters, Some(channel));
    add(&mut counters, channel, "minecraft:cobblestone", 7);
    add(&mut counters, channel, "minecraft:diamond", 1);
    add(&mut counters, channel, "minecraft:cobblestone", 3);

    assert_eq!(total(&counters, channel), 11);
    let items = snapshot(&counters, channel);
    assert_eq!(items[0], ("minecraft:cobblestone".to_string(), 10));
    assert_eq!(items.len(), 2);

    reset(&mut counters, Some(channel));
    assert_eq!(total(&counters, channel), 0);
    assert!(snapshot(&counters, channel).is_empty());
}

#[test]
fn reset_all_channels_clears_every_total() {
    let mut counters = HopperCounters::new();
    add(&mut counters, 0, "minecraft:stone", 4);
    add(&mut counters, 15, "minecraft:dirt", 2);
    reset(&mut counters, None);
    for channel in 0..16 {
        assert_eq!(total(&counters, channel), 0);
    }
}

#[test]
fn catalog_is_unique_and_complete() {
    for (index, rule) in Rule::ALL.iter().enumerate() {
        let def = rule.def();
        for other in Rule::ALL.iter().skip(index + 1) {
            assert_ne!(def.name, other.def().name);
        }
        assert!(def.validate(def.default).is_ok(), "{}", def.name);
        assert_eq!(def.default.kind(), def.kind);
        assert_eq!(Rule::from_name(def.name), Some(*rule));
    }
    assert_eq!(Rule::ALL.len(), 26);
}

#[test]
fn set_validates_kind_and_bounds() {
    let mut rules = CarpetRules::new();

    let rule = Rule::FillLimit;
    assert!(rules.set(rule, RuleValue::Int(100)).is_ok());
    assert_eq!(rules.get(rule), RuleValue::Int(100));
    assert!(rules.set(rule, RuleValue::Int(0)).is_err(), "below min");
    assert!(rules.set(rule, RuleValue::Bool(true)).is_err(), "wrong kind");

    let rule = Rule::HardcodeTntAngle;
    assert!(rules.set(rule, RuleValue::Float(1.5f64.to_bits())).is_ok());
    assert!(rules.set(rule, RuleValue::Float(7.0f64.to_bits())).is_err(), "above max");

    rules.reset(rule);
    assert_eq!(rules.get(rule), rule.def().default);
}

#[test]
fn rejections_name_the_rule_and_the_bound() {
    let mut rules = CarpetRules::new();
    assert_eq!(
        rules.set(Rule::FillLimit, RuleValue::Bool(true)),
        Err("rule fillLimit expects a integer value".to_string())
    );
    assert_eq!(
        rules.set(Rule::HardcodeTntAngle, RuleValue::Float(7.0f64.to_bits())),
        Err("rule hardcodeTNTangle must be <= 6.283185307179586".to_string())
    );
}

#[test]
fn saved_entries_reload_to_the_same_values() {
    let mut rules = CarpetRules::new();
    assert!(rules.set(Rule::FillLimit, RuleValue::Int(512)).is_ok());
    assert!(rules.set(Rule::MergeTnt, RuleValue::Bool(true)).is_ok());
    let saved = rules.persisted_entries();
    let mut reloaded = CarpetRules::new();
    reloaded.load_saved(&saved);
    for rule in Rule::ALL {
        assert_eq!(reloaded.get(rule), rules.get(rule));
    }
}

#[test]
fn load_drops_unknown_and_invalid_entries() {
    let mut rules = CarpetRules::new();
    rules.load_saved(&vec![
        ("fillLimit".to_string(), RuleValue::Int(512)),
        ("unknownRule".to_string(), RuleValue::Bool(true)),
        ("xpNoCooldown".to_string(), RuleValue::Int(3)),
    ]);
    assert_eq!(rules.get(Rule::FillLimit), RuleValue::Int(512));
    assert_eq!(rules.get(Rule::XpNoCooldown), RuleValue::Bool(false));
    assert_eq!(rules.get(Rule::MergeTnt), RuleValue::Bool(false));
}

#[test]
fn parse_value_matches_kind() {
    assert_eq!(
        parse_value(ValueKind::Bool, "true", parsed_float("true")),
        Ok(RuleValue::Bool(true))
    );
    assert!(parse_value(ValueKind::Bool, "yes", parsed_float("yes")).is_err());
    assert_eq!(parse_value(ValueKind::Int, "-3", parsed_float("-3")), Ok(RuleValue::Int(-3)));
    assert!(parse_value(ValueKind::Int, "1.5", parsed_float("1.5")).is_err());
    assert_eq!(
        parse_value(ValueKind::Float, "1.5", parsed_float("1.5")),
        Ok(RuleValue::Float(1.5f64.to_bits()))
    );
    for value in ["NaN", "inf", "-inf", "1e400"] {
        assert!(parse_value(ValueKind::Float, value, parsed_float(value)).is_err());
    }
}

#[test]
fn parse_errors_quote_the_input() {
    assert_eq!(
        parse_value(ValueKind::Bool, "yes", None),
        Err("expected true or false, got yes".to_string())
    );
    assert_eq!(
        parse_value(ValueKind::Int, "1.5", None),
        Err("expected an integer, got 1.5".to_string())
    );
    assert_eq!(
        parse_value(ValueKind::Float, "abc", None),
        Err("expected a number, got abc".to_string())
    );
    assert_eq!(
        parse_value(ValueKind::Float, "inf", parsed_float("inf")),
        Err("expected a finite number, got inf".to_string())
    );
}

#[test]
fn categories_reject_unknown_names() {
    assert_eq!(parse_category("feature"), Ok(RuleCategory::Feature));
    assert!(parse_category("features").is_err());
}

#[test]
fn unknown_category_message() {
    assert_eq!(
        parse_category("features"),
        Err("Unknown carpet rule category: features".to_string())
    );
}

#[test]
fn listing_marks_changed_rules() {
    let mut rules = CarpetRules::new();
    assert_eq!(changed_rules(&rules), 0);
    assert!(set_rule(&mut rules, Rule::FillLimit, "512", None).is_ok());
    assert_eq!(changed_rules(&rules), 1);
    let listed = list_rules(&rules, None);
    assert_eq!(listed.len(), 26);
    let fill = listed.iter().find(|(rule, _)| *rule == Rule::FillLimit).unwrap();
    assert_eq!(fill.1, Some(RuleValue::Int(512)));
    let tnt = list_rules(&rules, Some(RuleCategory::Tnt));
    assert!(tnt.iter().all(|(rule, _)| rule.def().category == RuleCategory::Tnt));
    assert!(root_message(1).starts_with("26 carpet rules available, 1 changed from default."));
}

#[test]
fn set_and_reset_by_name() {
    let mut rules = CarpetRules::new();
    assert_eq!(
        set_rule(&mut rules, Rule::FillLimit, "0", None),
        Err("Failed to set fillLimit: rule fillLimit must be >= 1".to_string())
    );
    assert_eq!(
        set_rule(&mut rules, Rule::FillLimit, "many", None),
        Err("Failed to set fillLimit: expected an integer, got many".to_string())
    );
    assert!(set_rule(&mut rules, Rule::FillLimit, "1000", None).is_ok());
    assert_eq!(reset_rule(&mut rules, "fillLimit"), Ok(Rule::FillLimit));
    assert_eq!(rules.get(Rule::FillLimit), Rule::FillLimit.def().default);
    assert_eq!(reset_rule(&mut rules, "noSuchRule"), Err("Unknown rule: noSuchRule".to_string()));
}

#[test]
fn fake_player_names_match_vanilla_rules() {
    assert!(fake_player::valid_name("Steve"));
    assert!(fake_player::valid_name("farm_bot_1"));
    assert!(!fake_player::valid_name("a"));
    assert!(!fake_player::valid_name("ab"));
    assert!(!fake_player::valid_name("fake-player"));
    assert!(!fake_player::valid_name("this_name_is_way_too_long"));
    assert!(!fake_player::valid_name("bad name!"));
}

#[test]
fn fake_players_spawn_attack_and_die() {
    let mut fakes = fake_player::FakePlayers::new();
    assert!(fake_player::check_spawn(&fakes, "bot_one", false).is_ok());
    let uuid = fake_player::offline_uuid("bot_one");
    fake_player::insert(&mut fakes, "bot_one", uuid, 7);
    assert_eq!(
        fake_player::check_spawn(&fakes, "bot_one", false),
        Err("fake player bot_one already exists".to_string())
    );
    assert_eq!(fake_player::get(&fakes, "bot_one"), Some(uuid));
    assert!(fake_player::set_attacking(&mut fakes, "bot_one", true).is_ok());
    assert!(fake_player::is_attacking(&fakes, "bot_one"));
    assert_eq!(fake_player::tick_fakes(&mut fakes, 7), vec![uuid]);
    assert!(fake_player::tick_fakes(&mut fakes, 7).is_empty());
    assert!(fake_player::stop_actions(&mut fakes, "bot_one").is_ok());
    assert!(!fake_player::is_attacking(&fakes, "bot_one"));
    assert_eq!(fake_player::list(&fakes), vec!["bot_one".to_string()]);
    assert_eq!(fake_player::kill(&mut fakes, "bot_one"), Ok(uuid));
    assert_eq!(
        fake_player::kill(&mut fakes, "bot_one"),
        Err("no fake player named bot_one".to_string())
    );
}

#[test]
fn offline_uuid_is_version_three() {
    let uuid = fake_player::offline_uuid("Steve");
    assert_eq!((uuid >> 76) & 0xf, 3);
    assert_eq!((uuid >> 62) & 0x3, 2);
    assert_ne!(uuid, fake_player::offline_uuid("Alex"));
}

#[test]
fn logger_toggle_twice_unsubscribes() {
    let mut subs = Subscriptions::new();
    assert!(loggers::toggle(&mut subs, Logger::Tps, 42));
    assert_eq!(subs.subscribers(Logger::Tps), vec![42]);
    assert!(subs.subscribers(Logger::MobCaps).is_empty());
    assert!(!loggers::toggle(&mut subs, Logger::Tps, 42));
    assert!(subs.subscribers(Logger::Tps).is_empty());
    assert!(loggers::toggle(&mut subs, Logger::MobCaps, 7));
    loggers::clear(&mut subs, 7);
    assert!(subs.subscribers(Logger::MobCaps).is_empty());
}

#[test]
fn offline_subscribers_are_pruned() {
    let mut subs = Subscriptions::new();
    loggers::toggle(&mut subs, Logger::Tps, 1);
    loggers::toggle(&mut subs, Logger::Tps, 2);
    loggers::toggle(&mut subs, Logger::MobCaps, 2);
    subs.prune_offline(&vec![2]);
    assert_eq!(subs.targets(), vec![(Logger::Tps, 2), (Logger::MobCaps, 2)]);
    assert_eq!(loggers::toggle_message(Logger::Tps, true), "Logger tps enabled");
    assert_eq!(
        loggers::mobcaps_readout((3, 70), (1, 10)),
        "Mobcaps | monster: 3/70 | creature: 1/10"
    );
    assert!(loggers::is_log_tick(40));
    assert!(!loggers::is_log_tick(41));
}

#[test]
fn spawn_tracking_counts_and_reports() {
    let mut tracker = SpawnTracker::new();
    tracker.record("minecraft:zombie");
    assert_eq!(tracker.total(), 0);
    assert!(tracker.toggle(100));
    tracker.record("minecraft:zombie");
    tracker.record("minecraft:skeleton");
    tracker.record("minecraft:zombie");
    assert_eq!(tracker.total(), 3);
    assert!(tracker.is_active());
    assert_eq!(
        tracker.report(110, "0.3"),
        "Spawn tracking: 3 spawns in 10s (0.3/s)minecraft:zombie: 2\nminecraft:skeleton: 1\n"
    );
    assert!(!tracker.toggle(120));
    assert_eq!(tracker.total(), 3);
}

#[test]
fn real_players_block_fake_names_ignoring_case() {
    let online = vec!["Steve".to_string(), "Alex".to_string()];
    assert!(fake_player::real_player_named(&online, "steve"));
    assert!(fake_player::real_player_named(&online, "ALEX"));
    assert!(!fake_player::real_player_named(&online, "Herobrine"));
    assert!(!fake_player::real_player_named(&Vec::new(), "Steve"));
    let fakes = fake_player::FakePlayers::new();
    assert_eq!(
        fake_player::check_spawn(&fakes, "Steve", fake_player::real_player_named(&online, "steve")),
        Err("a real player named Steve is online".to_string())
    );
}

#[test]
fn spawn_tracking_counts_per_entity() {
    let mut tracker = SpawnTracker::new();
    assert!(tracker.toggle(0));
    tracker.record("minecraft:zombie");
    tracker.record("minecraft:zombie");
    tracker.record("minecraft:creeper");
    assert_eq!(tracker.count("minecraft:zombie"), 2);
    assert_eq!(tracker.count("minecraft:creeper"), 1);
    assert_eq!(tracker.count("minecraft:pig"), 0);
}

#[test]
fn attack_flag_reads_the_last_setting_since_spawn() {
    let mut fakes = fake_player::FakePlayers::new();
    assert!(!fake_player::is_attacking(&fakes, "bot"));
    assert!(fake_player::set_attacking(&mut fakes, "bot", true).is_err());
    fake_player::insert(&mut fakes, "bot", 1, 0);
    assert!(!fake_player::is_attacking(&fakes, "bot"));
    assert!(fake_player::set_attacking(&mut fakes, "bot", true).is_ok());
    fake_player::tick_fakes(&mut fakes, 0);
    assert!(fake_player::is_attacking(&fakes, "bot"));
    assert!(fake_player::stop_actions(&mut fakes, "bot").is_ok());
    assert!(!fake_player::is_attacking(&fakes, "bot"));
    assert!(fake_player::set_attacking(&mut fakes, "bot", true).is_ok());
    assert!(fake_player::kill(&mut fakes, "bot").is_ok());
    assert!(!fake_player::is_attacking(&fakes, "bot"));
    fake_player::insert(&mut fakes, "bot", 2, 0);
    assert!(!fake_player::is_attacking(&fakes, "bot"));
}

#[test]
fn each_ready_fake_attacks_once_per_interval() {
    let mut fakes = fake_player::FakePlayers::new();
    fake_player::insert(&mut fakes, "a", 10, 0);
    fake_player::insert(&mut fakes, "b", 20, 0);
    fake_player::insert(&mut fakes, "c", 30, 1);
    assert!(fake_player::set_attacking(&mut fakes, "a", true).is_ok());
    assert!(fake_player::set_attacking(&mut fakes, "b", true).is_ok());
    assert!(fake_player::set_attacking(&mut fakes, "c", true).is_ok());
    let mut first = fake_player::tick_fakes(&mut fakes, 0);
    first.sort();
    assert_eq!(first, vec![10, 20]);
    for _ in 0..fake_player::ATTACK_INTERVAL {
        assert!(fake_player::tick_fakes(&mut fakes, 0).is_empty());
    }
    assert_eq!(fake_player::tick_fakes(&mut fakes, 0).len(), 2);
}
