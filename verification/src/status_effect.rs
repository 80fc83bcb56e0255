//! Status effects as the server knows them and as the plugin interface names
//! them, and the conversions between the two.

use vstd::prelude::*;
use crate::text::{str_eq, strip_minecraft_namespace, strip_namespace};

verus! {

/// A status effect of the game, as the server's data tables list it.
#[derive(Clone, Copy, PartialEq, Eq, Debug, Structural)]
pub enum EffectType {
    Speed,
    Slowness,
    Haste,
    MiningFatigue,
    Strength,
    InstantHealth,
    InstantDamage,
    JumpBoost,
    Nausea,
    Regeneration,
    Resistance,
    FireResistance,
    WaterBreathing,
    Invisibility,
    Blindness,
    NightVision,
    Hunger,
    Weakness,
    Poison,
    Wither,
    HealthBoost,
    Absorption,
    Saturation,
    Glowing,
    Levitation,
    Luck,
    Unluck,
    SlowFalling,
    ConduitPower,
    DolphinsGrace,
    BadOmen,
    HeroOfTheVillage,
    Darkness,
    TrialOmen,
    RaidOmen,
    WindCharged,
    Weaving,
    Oozing,
    Infested,
}

/// A status effect as the plugin interface enumerates it, in the same order.
#[derive(Clone, Copy, PartialEq, Eq, Debug, Structural)]
pub enum StatusEffectType {
    Speed,
    Slowness,
    Haste,
    MiningFatigue,
    Strength,
    InstantHealth,
    InstantDamage,
    JumpBoost,
    Nausea,
    Regeneration,
    Resistance,
    FireResistance,
    WaterBreathing,
    Invisibility,
    Blindness,
    NightVision,
    Hunger,
    Weakness,
    Poison,
    Wither,
    HealthBoost,
    Absorption,
    Saturation,
    Glowing,
    Levitation,
    Luck,
    Unluck,
    SlowFalling,
    ConduitPower,
    DolphinsGrace,
    BadOmen,
    HeroOfTheVillage,
    Darkness,
    TrialOmen,
    RaidOmen,
    WindCharged,
    Weaving,
    Oozing,
    Infested,
}

impl EffectType {
    /// Position of the effect in the shared declaration order.
    pub open spec fn spec_index(self) -> nat {
        match self {
            EffectType::Speed => 0,
            EffectType::Slowness => 1,
            EffectType::Haste => 2,
            EffectType::MiningFatigue => 3,
            EffectType::Strength => 4,
            EffectType::InstantHealth => 5,
            EffectType::InstantDamage => 6,
            EffectType::JumpBoost => 7,
            EffectType::Nausea => 8,
            EffectType::Regeneration => 9,
            EffectType::Resistance => 10,
            EffectType::FireResistance => 11,
            EffectType::WaterBreathing => 12,
            EffectType::Invisibility => 13,
            EffectType::Blindness => 14,
            EffectType::NightVision => 15,
            EffectType::Hunger => 16,
            EffectType::Weakness => 17,
            EffectType::Poison => 18,
            EffectType::Wither => 19,
            EffectType::HealthBoost => 20,
            EffectType::Absorption => 21,
            EffectType::Saturation => 22,
            EffectType::Glowing => 23,
            EffectType::Levitation => 24,
            EffectType::Luck => 25,
            EffectType::Unluck => 26,
            EffectType::SlowFalling => 27,
            EffectType::ConduitPower => 28,
            EffectType::DolphinsGrace => 29,
            EffectType::BadOmen => 30,
            EffectType::HeroOfTheVillage => 31,
            EffectType::Darkness => 32,
            EffectType::TrialOmen => 33,
            EffectType::RaidOmen => 34,
            EffectType::WindCharged => 35,
            EffectType::Weaving => 36,
            EffectType::Oozing => 37,
            EffectType::Infested => 38,
        }
    }

    /// The effect's registry name, without its `minecraft:` namespace.
    pub open spec fn spec_name(self) -> Seq<char> {
        match self {
            EffectType::Speed => "speed"@,
            EffectType::Slowness => "slowness"@,
            EffectType::Haste => "haste"@,
            EffectType::MiningFatigue => "mining_fatigue"@,
            EffectType::Strength => "strength"@,
            EffectType::InstantHealth => "instant_health"@,
            EffectType::InstantDamage => "instant_damage"@,
            EffectType::JumpBoost => "jump_boost"@,
            EffectType::Nausea => "nausea"@,
            EffectType::Regeneration => "regeneration"@,
            EffectType::Resistance => "resistance"@,
            EffectType::FireResistance => "fire_resistance"@,
            EffectType::WaterBreathing => "water_breathing"@,
            EffectType::Invisibility => "invisibility"@,
            EffectType::Blindness => "blindness"@,
            EffectType::NightVision => "night_vision"@,
            EffectType::Hunger => "hunger"@,
            EffectType::Weakness => "weakness"@,
            EffectType::Poison => "poison"@,
            EffectType::Wither => "wither"@,
            EffectType::HealthBoost => "health_boost"@,
            EffectType::Absorption => "absorption"@,
            EffectType::Saturation => "saturation"@,
            EffectType::Glowing => "glowing"@,
            EffectType::Levitation => "levitation"@,
            EffectType::Luck => "luck"@,
            EffectType::Unluck => "unluck"@,
            EffectType::SlowFalling => "slow_falling"@,
            EffectType::ConduitPower => "conduit_power"@,
            EffectType::DolphinsGrace => "dolphins_grace"@,
            EffectType::BadOmen => "bad_omen"@,
            EffectType::HeroOfTheVillage => "hero_of_the_village"@,
            EffectType::Darkness => "darkness"@,
            EffectType::TrialOmen => "trial_omen"@,
            EffectType::RaidOmen => "raid_omen"@,
            EffectType::WindCharged => "wind_charged"@,
            EffectType::Weaving => "weaving"@,
            EffectType::Oozing => "oozing"@,
            EffectType::Infested => "infested"@,
        }
    }

    pub fn name(self) -> (s: &'static str)
        ensures
            s@ == self.spec_name(),
    {
        match self {
            EffectType::Speed => "speed",
            EffectType::Slowness => "slowness",
            EffectType::Haste => "haste",
            EffectType::MiningFatigue => "mining_fatigue",
            EffectType::Strength => "strength",
            EffectType::InstantHealth => "instant_health",
            EffectType::InstantDamage => "instant_damage",
            EffectType::JumpBoost => "jump_boost",
            EffectType::Nausea => "nausea",
            EffectType::Regeneration => "regeneration",
            EffectType::Resistance => "resistance",
            EffectType::FireResistance => "fire_resistance",
            EffectType::WaterBreathing => "water_breathing",
            EffectType::Invisibility => "invisibility",
            EffectType::Blindness => "blindness",
            EffectType::NightVision => "night_vision",
            EffectType::Hunger => "hunger",
            EffectType::Weakness => "weakness",
            EffectType::Poison => "poison",
            EffectType::Wither => "wither",
            EffectType::HealthBoost => "health_boost",
            EffectType::Absorption => "absorption",
            EffectType::Saturation => "saturation",
            EffectType::Glowing => "glowing",
            EffectType::Levitation => "levitation",
            EffectType::Luck => "luck",
            EffectType::Unluck => "unluck",
            EffectType::SlowFalling => "slow_falling",
            EffectType::ConduitPower => "conduit_power",
            EffectType::DolphinsGrace => "dolphins_grace",
            EffectType::BadOmen => "bad_omen",
            EffectType::HeroOfTheVillage => "hero_of_the_village",
            EffectType::Darkness => "darkness",
            EffectType::TrialOmen => "trial_omen",
            EffectType::RaidOmen => "raid_omen",
            EffectType::WindCharged => "wind_charged",
            EffectType::Weaving => "weaving",
            EffectType::Oozing => "oozing",
            EffectType::Infested => "infested",
        }
    }

    /// The effect whose registry name is exactly `name`.
    pub fn from_name(name: &str) -> (r: Option<Self>)
        ensures
            r matches Some(e) ==> e.spec_name() == name@,
            r is None ==> forall|e: EffectType| e.spec_name() != name@,
    {
        if str_eq(name, "speed") {
            Some(EffectType::Speed)
        } else if str_eq(name, "slowness") {
            Some(EffectType::Slowness)
        } else if str_eq(name, "haste") {
            Some(EffectType::Haste)
        } else if str_eq(name, "mining_fatigue") {
            Some(EffectType::MiningFatigue)
        } else if str_eq(name, "strength") {
            Some(EffectType::Strength)
        } else if str_eq(name, "instant_health") {
            Some(EffectType::InstantHealth)
        } else if str_eq(name, "instant_damage") {
            Some(EffectType::InstantDamage)
        } else if str_eq(name, "jump_boost") {
            Some(EffectType::JumpBoost)
        } else if str_eq(name, "nausea") {
            Some(EffectType::Nausea)
        } else if str_eq(name, "regeneration") {
            Some(EffectType::Regeneration)
        } else if str_eq(name, "resistance") {
            Some(EffectType::Resistance)
        } else if str_eq(name, "fire_resistance") {
            Some(EffectType::FireResistance)
        } else if str_eq(name, "water_breathing") {
            Some(EffectType::WaterBreathing)
        } else if str_eq(name, "invisibility") {
            Some(EffectType::Invisibility)
        } else if str_eq(name, "blindness") {
            Some(EffectType::Blindness)
        } else if str_eq(name, "night_vision") {
            Some(EffectType::NightVision)
        } else if str_eq(name, "hunger") {
            Some(EffectType::Hunger)
        } else if str_eq(name, "weakness") {
            Some(EffectType::Weakness)
        } else if str_eq(name, "poison") {
            Some(EffectType::Poison)
        } else if str_eq(name, "wither") {
            Some(EffectType::Wither)
        } else if str_eq(name, "health_boost") {
            Some(EffectType::HealthBoost)
        } else if str_eq(name, "absorption") {
            Some(EffectType::Absorption)
        } else if str_eq(name, "saturation") {
            Some(EffectType::Saturation)
        } else if str_eq(name, "glowing") {
            Some(EffectType::Glowing)
        } else if str_eq(name, "levitation") {
            Some(EffectType::Levitation)
        } else if str_eq(name, "luck") {
            Some(EffectType::Luck)
        } else if str_eq(name, "unluck") {
            Some(EffectType::Unluck)
        } else if str_eq(name, "slow_falling") {
            Some(EffectType::SlowFalling)
        } else if str_eq(name, "conduit_power") {
            Some(EffectType::ConduitPower)
        } else if str_eq(name, "dolphins_grace") {
            Some(EffectType::DolphinsGrace)
        } else if str_eq(name, "bad_omen") {
            Some(EffectType::BadOmen)
        } else if str_eq(name, "hero_of_the_village") {
            Some(EffectType::HeroOfTheVillage)
        } else if str_eq(name, "darkness") {
            Some(EffectType::Darkness)
        } else if str_eq(name, "trial_omen") {
            Some(EffectType::TrialOmen)
        } else if str_eq(name, "raid_omen") {
            Some(EffectType::RaidOmen)
        } else if str_eq(name, "wind_charged") {
            Some(EffectType::WindCharged)
        } else if str_eq(name, "weaving") {
            Some(EffectType::Weaving)
        } else if str_eq(name, "oozing") {
            Some(EffectType::Oozing)
        } else if str_eq(name, "infested") {
            Some(EffectType::Infested)
        } else {
            proof {
                assert forall|e: EffectType| e.spec_name() != name@ by {
                    match e {
                        EffectType::Speed => {},
                        EffectType::Slowness => {},
                        EffectType::Haste => {},
                        EffectType::MiningFatigue => {},
                        EffectType::Strength => {},
                        EffectType::InstantHealth => {},
                        EffectType::InstantDamage => {},
                        EffectType::JumpBoost => {},
                        EffectType::Nausea => {},
                        EffectType::Regeneration => {},
                        EffectType::Resistance => {},
                        EffectType::FireResistance => {},
                        EffectType::WaterBreathing => {},
                        EffectType::Invisibility => {},
                        EffectType::Blindness => {},
                        EffectType::NightVision => {},
                        EffectType::Hunger => {},
                        EffectType::Weakness => {},
                        EffectType::Poison => {},
                        EffectType::Wither => {},
                        EffectType::HealthBoost => {},
                        EffectType::Absorption => {},
                        EffectType::Saturation => {},
                        EffectType::Glowing => {},
                        EffectType::Levitation => {},
                        EffectType::Luck => {},
                        EffectType::Unluck => {},
                        EffectType::SlowFalling => {},
                        EffectType::ConduitPower => {},
                        EffectType::DolphinsGrace => {},
                        EffectType::BadOmen => {},
                        EffectType::HeroOfTheVillage => {},
                        EffectType::Darkness => {},
                        EffectType::TrialOmen => {},
                        EffectType::RaidOmen => {},
                        EffectType::WindCharged => {},
                        EffectType::Weaving => {},
                        EffectType::Oozing => {},
                        EffectType::Infested => {},
                    }
                }
            }
            None
        }
    }
}

impl StatusEffectType {
    /// Position of the effect in the shared declaration order.
    pub open spec fn spec_index(self) -> nat {
        match self {
            StatusEffectType::Speed => 0,
            StatusEffectType::Slowness => 1,
            StatusEffectType::Haste => 2,
            StatusEffectType::MiningFatigue => 3,
            StatusEffectType::Strength => 4,
            StatusEffectType::InstantHealth => 5,
            StatusEffectType::InstantDamage => 6,
            StatusEffectType::JumpBoost => 7,
            StatusEffectType::Nausea => 8,
            StatusEffectType::Regeneration => 9,
            StatusEffectType::Resistance => 10,
            StatusEffectType::FireResistance => 11,
            StatusEffectType::WaterBreathing => 12,
            StatusEffectType::Invisibility => 13,
            StatusEffectType::Blindness => 14,
            StatusEffectType::NightVision => 15,
            StatusEffectType::Hunger => 16,
            StatusEffectType::Weakness => 17,
            StatusEffectType::Poison => 18,
            StatusEffectType::Wither => 19,
            StatusEffectType::HealthBoost => 20,
            StatusEffectType::Absorption => 21,
            StatusEffectType::Saturation => 22,
            StatusEffectType::Glowing => 23,
            StatusEffectType::Levitation => 24,
            StatusEffectType::Luck => 25,
            StatusEffectType::Unluck => 26,
            StatusEffectType::SlowFalling => 27,
            StatusEffectType::ConduitPower => 28,
            StatusEffectType::DolphinsGrace => 29,
            StatusEffectType::BadOmen => 30,
            StatusEffectType::HeroOfTheVillage => 31,
            StatusEffectType::Darkness => 32,
            StatusEffectType::TrialOmen => 33,
            StatusEffectType::RaidOmen => 34,
            StatusEffectType::WindCharged => 35,
            StatusEffectType::Weaving => 36,
            StatusEffectType::Oozing => 37,
            StatusEffectType::Infested => 38,
        }
    }
}

/// Distinct server effects sit at distinct positions.
pub proof fn lemma_effect_index_injective()
    ensures
        forall|a: EffectType, b: EffectType| a.spec_index() == b.spec_index() ==> a == b,
{
    assert forall|a: EffectType, b: EffectType| a.spec_index() == b.spec_index() implies a == b by {
        match a {
            EffectType::Speed => {},
            EffectType::Slowness => {},
            EffectType::Haste => {},
            EffectType::MiningFatigue => {},
            EffectType::Strength => {},
            EffectType::InstantHealth => {},
            EffectType::InstantDamage => {},
            EffectType::JumpBoost => {},
            EffectType::Nausea => {},
            EffectType::Regeneration => {},
            EffectType::Resistance => {},
            EffectType::FireResistance => {},
            EffectType::WaterBreathing => {},
            EffectType::Invisibility => {},
            EffectType::Blindness => {},
            EffectType::NightVision => {},
            EffectType::Hunger => {},
            EffectType::Weakness => {},
            EffectType::Poison => {},
            EffectType::Wither => {},
            EffectType::HealthBoost => {},
            EffectType::Absorption => {},
            EffectType::Saturation => {},
            EffectType::Glowing => {},
            EffectType::Levitation => {},
            EffectType::Luck => {},
            EffectType::Unluck => {},
            EffectType::SlowFalling => {},
            EffectType::ConduitPower => {},
            EffectType::DolphinsGrace => {},
            EffectType::BadOmen => {},
            EffectType::HeroOfTheVillage => {},
            EffectType::Darkness => {},
            EffectType::TrialOmen => {},
            EffectType::RaidOmen => {},
            EffectType::WindCharged => {},
            EffectType::Weaving => {},
            EffectType::Oozing => {},
            EffectType::Infested => {},
        }
    }
}

/// Distinct interface effects sit at distinct positions.
pub proof fn lemma_status_effect_index_injective()
    ensures
        forall|a: StatusEffectType, b: StatusEffectType| a.spec_index() == b.spec_index() ==> a == b,
{
    assert forall|a: StatusEffectType, b: StatusEffectType| a.spec_index() == b.spec_index() implies a == b by {
        match a {
            StatusEffectType::Speed => {},
            StatusEffectType::Slowness => {},
            StatusEffectType::Haste => {},
            StatusEffectType::MiningFatigue => {},
            StatusEffectType::Strength => {},
            StatusEffectType::InstantHealth => {},
            StatusEffectType::InstantDamage => {},
            StatusEffectType::JumpBoost => {},
            StatusEffectType::Nausea => {},
            StatusEffectType::Regeneration => {},
            StatusEffectType::Resistance => {},
            StatusEffectType::FireResistance => {},
            StatusEffectType::WaterBreathing => {},
            StatusEffectType::Invisibility => {},
            StatusEffectType::Blindness => {},
            StatusEffectType::NightVision => {},
            StatusEffectType::Hunger => {},
            StatusEffectType::Weakness => {},
            StatusEffectType::Poison => {},
            StatusEffectType::Wither => {},
            StatusEffectType::HealthBoost => {},
            StatusEffectType::Absorption => {},
            StatusEffectType::Saturation => {},
            StatusEffectType::Glowing => {},
            StatusEffectType::Levitation => {},
            StatusEffectType::Luck => {},
            StatusEffectType::Unluck => {},
            StatusEffectType::SlowFalling => {},
            StatusEffectType::ConduitPower => {},
            StatusEffectType::DolphinsGrace => {},
            StatusEffectType::BadOmen => {},
            StatusEffectType::HeroOfTheVillage => {},
            StatusEffectType::Darkness => {},
            StatusEffectType::TrialOmen => {},
            StatusEffectType::RaidOmen => {},
            StatusEffectType::WindCharged => {},
            StatusEffectType::Weaving => {},
            StatusEffectType::Oozing => {},
            StatusEffectType::Infested => {},
        }
    }
}

/// The server effect that an interface effect names: the one at the same position.
pub fn from_wasm_status_effect_type(t: StatusEffectType) -> (r: EffectType)
    ensures
        r.spec_index() == t.spec_index(),
{
    match t {
        StatusEffectType::Speed => EffectType::Speed,
        StatusEffectType::Slowness => EffectType::Slowness,
        StatusEffectType::Haste => EffectType::Haste,
        StatusEffectType::MiningFatigue => EffectType::MiningFatigue,
        StatusEffectType::Strength => EffectType::Strength,
        StatusEffectType::InstantHealth => EffectType::InstantHealth,
        StatusEffectType::InstantDamage => EffectType::InstantDamage,
        StatusEffectType::JumpBoost => EffectType::JumpBoost,
        StatusEffectType::Nausea => EffectType::Nausea,
        StatusEffectType::Regeneration => EffectType::Regeneration,
        StatusEffectType::Resistance => EffectType::Resistance,
        StatusEffectType::FireResistance => EffectType::FireResistance,
        StatusEffectType::WaterBreathing => EffectType::WaterBreathing,
        StatusEffectType::Invisibility => EffectType::Invisibility,
        StatusEffectType::Blindness => EffectType::Blindness,
        StatusEffectType::NightVision => EffectType::NightVision,
        StatusEffectType::Hunger => EffectType::Hunger,
        StatusEffectType::Weakness => EffectType::Weakness,
        StatusEffectType::Poison => EffectType::Poison,
        StatusEffectType::Wither => EffectType::Wither,
        StatusEffectType::HealthBoost => EffectType::HealthBoost,
        StatusEffectType::Absorption => EffectType::Absorption,
        StatusEffectType::Saturation => EffectType::Saturation,
        StatusEffectType::Glowing => EffectType::Glowing,
        StatusEffectType::Levitation => EffectType::Levitation,
        StatusEffectType::Luck => EffectType::Luck,
        StatusEffectType::Unluck => EffectType::Unluck,
        StatusEffectType::SlowFalling => EffectType::SlowFalling,
        StatusEffectType::ConduitPower => EffectType::ConduitPower,
        StatusEffectType::DolphinsGrace => EffectType::DolphinsGrace,
        StatusEffectType::BadOmen => EffectType::BadOmen,
        StatusEffectType::HeroOfTheVillage => EffectType::HeroOfTheVillage,
        StatusEffectType::Darkness => EffectType::Darkness,
        StatusEffectType::TrialOmen => EffectType::TrialOmen,
        StatusEffectType::RaidOmen => EffectType::RaidOmen,
        StatusEffectType::WindCharged => EffectType::WindCharged,
        StatusEffectType::Weaving => EffectType::Weaving,
        StatusEffectType::Oozing => EffectType::Oozing,
        StatusEffectType::Infested => EffectType::Infested,
    }
}

/// The interface effect that names a server effect: the one at the same position.
pub fn to_wasm_status_effect_type(t: EffectType) -> (r: StatusEffectType)
    ensures
        r.spec_index() == t.spec_index(),
{
    match t {
        EffectType::Speed => StatusEffectType::Speed,
        EffectType::Slowness => StatusEffectType::Slowness,
        EffectType::Haste => StatusEffectType::Haste,
        EffectType::MiningFatigue => StatusEffectType::MiningFatigue,
        EffectType::Strength => StatusEffectType::Strength,
        EffectType::InstantHealth => StatusEffectType::InstantHealth,
        EffectType::InstantDamage => StatusEffectType::InstantDamage,
        EffectType::JumpBoost => StatusEffectType::JumpBoost,
        EffectType::Nausea => StatusEffectType::Nausea,
        EffectType::Regeneration => StatusEffectType::Regeneration,
        EffectType::Resistance => StatusEffectType::Resistance,
        EffectType::FireResistance => StatusEffectType::FireResistance,
        EffectType::WaterBreathing => StatusEffectType::WaterBreathing,
        EffectType::Invisibility => StatusEffectType::Invisibility,
        EffectType::Blindness => StatusEffectType::Blindness,
        EffectType::NightVision => StatusEffectType::NightVision,
        EffectType::Hunger => StatusEffectType::Hunger,
        EffectType::Weakness => StatusEffectType::Weakness,
        EffectType::Poison => StatusEffectType::Poison,
        EffectType::Wither => StatusEffectType::Wither,
        EffectType::HealthBoost => StatusEffectType::HealthBoost,
        EffectType::Absorption => StatusEffectType::Absorption,
        EffectType::Saturation => StatusEffectType::Saturation,
        EffectType::Glowing => StatusEffectType::Glowing,
        EffectType::Levitation => StatusEffectType::Levitation,
        EffectType::Luck => StatusEffectType::Luck,
        EffectType::Unluck => StatusEffectType::Unluck,
        EffectType::SlowFalling => StatusEffectType::SlowFalling,
        EffectType::ConduitPower => StatusEffectType::ConduitPower,
        EffectType::DolphinsGrace => StatusEffectType::DolphinsGrace,
        EffectType::BadOmen => StatusEffectType::BadOmen,
        EffectType::HeroOfTheVillage => StatusEffectType::HeroOfTheVillage,
        EffectType::Darkness => StatusEffectType::Darkness,
        EffectType::TrialOmen => StatusEffectType::TrialOmen,
        EffectType::RaidOmen => StatusEffectType::RaidOmen,
        EffectType::WindCharged => StatusEffectType::WindCharged,
        EffectType::Weaving => StatusEffectType::Weaving,
        EffectType::Oozing => StatusEffectType::Oozing,
        EffectType::Infested => StatusEffectType::Infested,
    }
}

/// Length, first and last character of a name, folded into one integer.
spec fn effect_name_key(s: Seq<char>) -> int {
    s.len() * 1000000 + (s[0] as int) * 1000 + (s[s.len() - 1] as int)
}

/// The position of the effect whose name has key `k`.
spec fn effect_position_of_key(k: int) -> int {
    if k == 5115100 {
        0
    } else if k == 8115115 {
        1
    } else if k == 5104101 {
        2
    } else if k == 14109101 {
        3
    } else if k == 8115104 {
        4
    } else if k == 14105104 {
        5
    } else if k == 14105101 {
        6
    } else if k == 10106116 {
        7
    } else if k == 6110097 {
        8
    } else if k == 12114110 {
        9
    } else if k == 10114101 {
        10
    } else if k == 15102101 {
        11
    } else if k == 15119103 {
        12
    } else if k == 12105121 {
        13
    } else if k == 9098115 {
        14
    } else if k == 12110110 {
        15
    } else if k == 6104114 {
        16
    } else if k == 8119115 {
        17
    } else if k == 6112110 {
        18
    } else if k == 6119114 {
        19
    } else if k == 12104116 {
        20
    } else if k == 10097110 {
        21
    } else if k == 10115110 {
        22
    } else if k == 7103103 {
        23
    } else if k == 10108110 {
        24
    } else if k == 4108107 {
        25
    } else if k == 6117107 {
        26
    } else if k == 12115103 {
        27
    } else if k == 13099114 {
        28
    } else if k == 14100101 {
        29
    } else if k == 8098110 {
        30
    } else if k == 19104101 {
        31
    } else if k == 8100115 {
        32
    } else if k == 10116110 {
        33
    } else if k == 9114110 {
        34
    } else if k == 12119100 {
        35
    } else if k == 7119103 {
        36
    } else if k == 6111103 {
        37
    } else if k == 8105100 {
        38
    } else {
        -1
    }
}

proof fn lemma_effect_name_first_chars(e: EffectType)
    ensures
        effect_position_of_key(effect_name_key(e.spec_name())) == e.spec_index(),
{
    match e {
        EffectType::Speed => {
            reveal_strlit("speed");
        },
        EffectType::Slowness => {
            reveal_strlit("slowness");
        },
        EffectType::Haste => {
            reveal_strlit("haste");
        },
        EffectType::MiningFatigue => {
            reveal_strlit("mining_fatigue");
        },
        EffectType::Strength => {
            reveal_strlit("strength");
        },
        EffectType::InstantHealth => {
            reveal_strlit("instant_health");
        },
        EffectType::InstantDamage => {
            reveal_strlit("instant_damage");
        },
        EffectType::JumpBoost => {
            reveal_strlit("jump_boost");
        },
        EffectType::Nausea => {
            reveal_strlit("nausea");
        },
        EffectType::Regeneration => {
            reveal_strlit("regeneration");
        },
        EffectType::Resistance => {
            reveal_strlit("resistance");
        },
        EffectType::FireResistance => {
            reveal_strlit("fire_resistance");
        },
        EffectType::WaterBreathing => {
            reveal_strlit("water_breathing");
        },
        EffectType::Invisibility => {
            reveal_strlit("invisibility");
        },
        EffectType::Blindness => {
            reveal_strlit("blindness");
        },
        EffectType::NightVision => {
            reveal_strlit("night_vision");
        },
        EffectType::Hunger => {
            reveal_strlit("hunger");
        },
        EffectType::Weakness => {
            reveal_strlit("weakness");
        },
        EffectType::Poison => {
            reveal_strlit("poison");
        },
        EffectType::Wither => {
            reveal_strlit("wither");
        },
        EffectType::HealthBoost => {
            reveal_strlit("health_boost");
        },
        EffectType::Absorption => {
            reveal_strlit("absorption");
        },
        EffectType::Saturation => {
            reveal_strlit("saturation");
        },
        EffectType::Glowing => {
            reveal_strlit("glowing");
        },
        EffectType::Levitation => {
            reveal_strlit("levitation");
        },
        EffectType::Luck => {
            reveal_strlit("luck");
        },
        EffectType::Unluck => {
            reveal_strlit("unluck");
        },
        EffectType::SlowFalling => {
            reveal_strlit("slow_falling");
        },
        EffectType::ConduitPower => {
            reveal_strlit("conduit_power");
        },
        EffectType::DolphinsGrace => {
            reveal_strlit("dolphins_grace");
        },
        EffectType::BadOmen => {
            reveal_strlit("bad_omen");
        },
        EffectType::HeroOfTheVillage => {
            reveal_strlit("hero_of_the_village");
        },
        EffectType::Darkness => {
            reveal_strlit("darkness");
        },
        EffectType::TrialOmen => {
            reveal_strlit("trial_omen");
        },
        EffectType::RaidOmen => {
            reveal_strlit("raid_omen");
        },
        EffectType::WindCharged => {
            reveal_strlit("wind_charged");
        },
        EffectType::Weaving => {
            reveal_strlit("weaving");
        },
        EffectType::Oozing => {
            reveal_strlit("oozing");
        },
        EffectType::Infested => {
            reveal_strlit("infested");
        },
    }
}

/// Converting an interface effect to the server's and back gives the same effect.
pub proof fn lemma_wasm_round_trip(t: StatusEffectType, e: EffectType, back: StatusEffectType)
    requires
        e.spec_index() == t.spec_index(),
        back.spec_index() == e.spec_index(),
    ensures
        back == t,
{
    lemma_status_effect_index_injective();
}

/// Converting a server effect to the interface's and back gives the same effect.
pub proof fn lemma_effect_round_trip(e: EffectType, t: StatusEffectType, back: EffectType)
    requires
        t.spec_index() == e.spec_index(),
        back.spec_index() == t.spec_index(),
    ensures
        back == e,
{
    lemma_effect_index_injective();
}

/// An effect active on an entity, as the server stores it.
pub struct Effect {
    /// Registry name of the effect, normally with its `minecraft:` namespace.
    pub effect_name: String,
    /// Remaining ticks; negative values mark an unusable duration.
    pub duration: i32,
    pub amplifier: u8,
    pub ambient: bool,
    pub show_particles: bool,
    pub show_icon: bool,
}

/// An effect as handed to a plugin.
#[derive(Clone, Copy, PartialEq, Eq, Debug, Structural)]
pub struct StatusEffectInstance {
    pub effect_type: StatusEffectType,
    pub duration: u32,
    pub amplifier: u8,
    pub ambient: bool,
    pub show_particles: bool,
    pub show_icon: bool,
}

/// The server effect registered under `name`, if any.
pub open spec fn effect_named(name: Seq<char>) -> Option<EffectType> {
    if exists|e: EffectType| #[trigger] e.spec_name() == name {
        Some(choose|e: EffectType| #[trigger] e.spec_name() == name)
    } else {
        None
    }
}

/// No two server effects share a registry name.
pub proof fn lemma_effect_names_distinct()
    ensures
        forall|a: EffectType, b: EffectType| a.spec_name() == b.spec_name() ==> a == b,
{
    assert forall|a: EffectType, b: EffectType| a.spec_name() == b.spec_name() implies a == b by {
        lemma_effect_name_first_chars(a);
        lemma_effect_name_first_chars(b);
        lemma_effect_index_injective();
    }
}

/// The interface view of an effect: its name, stripped of the `minecraft:`
/// namespace, must name a server effect, else there is none; a negative
/// duration becomes `0`; the other fields are copied.
pub fn to_wasm_status_effect_instance(effect: &Effect) -> (r: Option<StatusEffectInstance>)
    ensures
        r is Some <==> effect_named(strip_namespace(effect.effect_name@)) is Some,
        r is Some ==> {
            let inst = r.unwrap();
            let e = effect_named(strip_namespace(effect.effect_name@)).unwrap();
            &&& inst.effect_type.spec_index() == e.spec_index()
            &&& inst.duration == (if effect.duration >= 0 { effect.duration as int } else { 0 })
            &&& inst.amplifier == effect.amplifier
            &&& inst.ambient == effect.ambient
            &&& inst.show_particles == effect.show_particles
            &&& inst.show_icon == effect.show_icon
        },
{
    let name = strip_minecraft_namespace(effect.effect_name.as_str());
    let found = EffectType::from_name(name);
    proof {
        lemma_effect_names_distinct();
    }
    match found {
        Some(effect_type) => {
            let duration: u32 = if effect.duration >= 0 {
                effect.duration as u32
            } else {
                0
            };
            Some(StatusEffectInstance {
                effect_type: to_wasm_status_effect_type(effect_type),
                duration,
                amplifier: effect.amplifier,
                ambient: effect.ambient,
                show_particles: effect.show_particles,
                show_icon: effect.show_icon,
            })
        },
        None => None,
    }
}

} // verus!
