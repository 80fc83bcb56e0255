use verdantgolem::event::{
    BellRingEvent, BlockCookEvent, PlayerSpawnLocationEvent, VaultDisplayItemEvent,
    InventoryOpenEvent, PlayerItemConsumeEvent, PlayerLinksSendEvent, PlayerRecipeDiscoverEvent,
    PlayerSwapHandItemsEvent, PrepareAnvilEvent, PrepareGrindstoneEvent, PrepareSmithingEvent,
    TradeSelectEvent, WorldLoadEvent, WorldUnloadEvent,
};
use verdantgolem::block::behaviour::Facing;
use verdantgolem::entity::tnt::Vec3Bits;
use verdantgolem::geometry::Vector3;
use verdantgolem::status_effect::{
    from_wasm_status_effect_type, to_wasm_status_effect_instance, to_wasm_status_effect_type,
    Effect, EffectType, StatusEffectType,
};

#[test]
fn effect_types_convert_both_ways() {
    assert_eq!(from_wasm_status_effect_type(StatusEffectType::Speed), EffectType::Speed);
    assert_eq!(to_wasm_status_effect_type(EffectType::Infested), StatusEffectType::Infested);
    assert_eq!(
        to_wasm_status_effect_type(from_wasm_status_effect_type(StatusEffectType::HeroOfTheVillage)),
        StatusEffectType::HeroOfTheVillage
    );
    assert_eq!(EffectType::from_name("mining_fatigue"), Some(EffectType::MiningFatigue));
    assert_eq!(EffectType::from_name("minecraft:speed"), None);
    assert_eq!(EffectType::DolphinsGrace.name(), "dolphins_grace");
}

#[test]
fn effects_reach_plugins_by_registry_name() {
    let effect = Effect {
        effect_name: "minecraft:night_vision".to_string(),
        duration: 200,
        amplifier: 1,
        ambient: false,
        show_particles: true,
        show_icon: true,
    };
    let instance = to_wasm_status_effect_instance(&effect).unwrap();
    assert_eq!(instance.effect_type, StatusEffectType::NightVision);
    assert_eq!(instance.duration, 200);
    assert_eq!(instance.amplifier, 1);
    assert!(instance.show_particles);

    let negative = Effect { duration: -5, effect_name: "slowness".to_string(), ..effect };
    assert_eq!(to_wasm_status_effect_instance(&negative).unwrap().duration, 0);
    assert_eq!(
        to_wasm_status_effect_instance(&negative).unwrap().effect_type,
        StatusEffectType::Slowness
    );

    let unknown = Effect { effect_name: "minecraft:flight".to_string(), ..negative };
    assert!(to_wasm_status_effect_instance(&unknown).is_none());
}

#[test]
fn events_start_uncancelled() {
    let mut open = InventoryOpenEvent::new(7u32);
    assert!(!open.cancelled());
    open.set_cancelled(true);
    assert!(open.cancelled());
    assert_eq!(open.player, 7);
    let anvil = PrepareAnvilEvent::new(1u8, "Sword".to_string(), 3);
    assert_eq!(anvil.rename_text, "Sword");
    assert_eq!(anvil.repair_cost, 3);
    assert_eq!(PrepareGrindstoneEvent::new(1u8, None).result_item, None);
    assert_eq!(
        PrepareSmithingEvent::new(1u8, Some("minecraft:netherite_sword".to_string())).result_item,
        Some("minecraft:netherite_sword".to_string())
    );
    assert_eq!(TradeSelectEvent::new(1u8, 2).slot_index, 2);
    assert!(!PlayerItemConsumeEvent::new(1u8, "minecraft:apple".to_string()).cancelled());
    let links = PlayerLinksSendEvent::new(5u8, vec!["https://example.org".to_string()]);
    assert_eq!(*links.get_player(), 5);
    let recipe = PlayerRecipeDiscoverEvent::new(6u8, "minecraft:torch".to_string());
    assert_eq!(*recipe.get_player(), 6);
    assert!(!PlayerSwapHandItemsEvent::new(1u8).cancelled());
    assert_eq!(WorldLoadEvent::new("overworld").world, "overworld");
    assert!(!WorldUnloadEvent::new("nether").cancelled());
}

#[test]
fn block_events_carry_their_position() {
    let pos = Vector3 { x: 1, y: 64, z: -3 };
    let mut bell: BellRingEvent<&str, u32> = BellRingEvent::new(pos, "overworld", Some(9), Some(Facing::East));
    assert_eq!(bell.block_pos, pos);
    assert_eq!(bell.entity, Some(9));
    assert!(!bell.cancelled());
    bell.set_cancelled(true);
    assert!(bell.cancelled());
    assert_eq!(bell.direction, Some(Facing::East));
    let cook = BlockCookEvent::new(pos, "overworld", "minecraft:beef", "minecraft:cooked_beef");
    assert_eq!(cook.result, "minecraft:cooked_beef");
    assert!(!cook.cancelled());
    let vault = VaultDisplayItemEvent::new(pos, "overworld", "minecraft:diamond");
    assert_eq!(vault.item, "minecraft:diamond");
    let spawn = Vec3Bits { x: 0.5f64.to_bits(), y: 70.0f64.to_bits(), z: (-2.5f64).to_bits() };
    let mut at = PlayerSpawnLocationEvent::new(4u8, spawn);
    assert_eq!(*at.get_player(), 4);
    at.set_cancelled(true);
    assert!(at.cancelled());
    assert_eq!(f64::from_bits(at.spawn_pos.y), 70.0);
}
