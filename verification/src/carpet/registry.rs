//! Carpet-style rule catalog: static metadata, runtime values and the
//! validation that guards every change. Semantics follow fabric-carpet's
//! `CarpetSettings`: rules change at runtime through `/carpet`, are persisted by
//! name, and unknown or missing entries fall back to defaults.

use vstd::prelude::*;
use crate::float_bits::{f64_bits_eq, f64_bits_lt, eq_bits, lt_bits};
use crate::text::{i64_to_text, signed_decimal, str_eq};

verus! {

/// Rule groups shown by `/carpet list`, aligned with carpet's categories.
#[derive(Clone, Copy, PartialEq, Eq, Debug, Structural)]
pub enum RuleCategory {
    Tnt,
    Creative,
    Survival,
    Optimization,
    Feature,
}

impl RuleCategory {
    pub open spec fn spec_name(self) -> Seq<char> {
        match self {
            RuleCategory::Tnt => "tnt"@,
            RuleCategory::Creative => "creative"@,
            RuleCategory::Survival => "survival"@,
            RuleCategory::Optimization => "optimization"@,
            RuleCategory::Feature => "feature"@,
        }
    }

    pub fn name(self) -> (s: &'static str)
        ensures
            s@ == self.spec_name(),
    {
        match self {
            RuleCategory::Tnt => "tnt",
            RuleCategory::Creative => "creative",
            RuleCategory::Survival => "survival",
            RuleCategory::Optimization => "optimization",
            RuleCategory::Feature => "feature",
        }
    }

    /// The category whose name is exactly `name`.
    pub fn from_name(name: &str) -> (r: Option<Self>)
        ensures
            r matches Some(c) ==> c.spec_name() == name@,
            r is None ==> forall|c: RuleCategory| c.spec_name() != name@,
    {
        if str_eq(name, "tnt") {
            Some(RuleCategory::Tnt)
        } else if str_eq(name, "creative") {
            Some(RuleCategory::Creative)
        } else if str_eq(name, "survival") {
            Some(RuleCategory::Survival)
        } else if str_eq(name, "optimization") {
            Some(RuleCategory::Optimization)
        } else if str_eq(name, "feature") {
            Some(RuleCategory::Feature)
        } else {
            proof {
                assert forall|c: RuleCategory| c.spec_name() != name@ by {
                    match c {
                        RuleCategory::Tnt => {},
                        RuleCategory::Creative => {},
                        RuleCategory::Survival => {},
                        RuleCategory::Optimization => {},
                        RuleCategory::Feature => {},
                    }
                }
            }
            None
        }
    }
}

/// The value type a rule accepts.
#[derive(Clone, Copy, PartialEq, Eq, Debug, Structural)]
pub enum ValueKind {
    Bool,
    Int,
    Float,
}

impl ValueKind {
    pub open spec fn spec_name(self) -> Seq<char> {
        match self {
            ValueKind::Bool => "boolean"@,
            ValueKind::Int => "integer"@,
            ValueKind::Float => "float"@,
        }
    }

    pub fn name(self) -> (s: &'static str)
        ensures
            s@ == self.spec_name(),
    {
        match self {
            ValueKind::Bool => "boolean",
            ValueKind::Int => "integer",
            ValueKind::Float => "float",
        }
    }
}

/// A typed rule value. A `Float` holds the IEEE-754 bit pattern of an `f64`.
#[derive(Clone, Copy, Debug)]
pub enum RuleValue {
    Bool(bool),
    Int(i64),
    Float(u64),
}

impl RuleValue {
    pub open spec fn spec_kind(self) -> ValueKind {
        match self {
            RuleValue::Bool(_) => ValueKind::Bool,
            RuleValue::Int(_) => ValueKind::Int,
            RuleValue::Float(_) => ValueKind::Float,
        }
    }

    /// Equality as `f64` compares floats: NaN equals nothing, `-0.0 == 0.0`.
    pub open spec fn same(self, other: RuleValue) -> bool {
        match (self, other) {
            (RuleValue::Bool(a), RuleValue::Bool(b)) => a == b,
            (RuleValue::Int(a), RuleValue::Int(b)) => a == b,
            (RuleValue::Float(a), RuleValue::Float(b)) => f64_bits_eq(a, b),
            _ => false,
        }
    }

    /// `self.as_f64() < other.as_f64()` for two values of one numeric kind.
    pub open spec fn below(self, other: RuleValue) -> bool {
        match (self, other) {
            (RuleValue::Int(a), RuleValue::Int(b)) => a < b,
            (RuleValue::Float(a), RuleValue::Float(b)) => f64_bits_lt(a, b),
            _ => false,
        }
    }

    pub fn kind(self) -> (k: ValueKind)
        ensures
            k == self.spec_kind(),
    {
        match self {
            RuleValue::Bool(_) => ValueKind::Bool,
            RuleValue::Int(_) => ValueKind::Int,
            RuleValue::Float(_) => ValueKind::Float,
        }
    }

    pub fn as_bool(self) -> (b: bool)
        ensures
            b == (match self {
                RuleValue::Bool(v) => v,
                _ => false,
            }),
    {
        if let RuleValue::Bool(value) = self {
            value
        } else {
            false
        }
    }

    pub fn as_int(self) -> (i: i64)
        ensures
            i == (match self {
                RuleValue::Int(v) => v,
                _ => 0,
            }),
    {
        if let RuleValue::Int(value) = self {
            value
        } else {
            0
        }
    }

    fn is_below(self, other: RuleValue) -> (r: bool)
        ensures
            r == self.below(other),
    {
        match (self, other) {
            (RuleValue::Int(a), RuleValue::Int(b)) => a < b,
            (RuleValue::Float(a), RuleValue::Float(b)) => lt_bits(a, b),
            _ => false,
        }
    }
}

impl PartialEq for RuleValue {
    fn eq(&self, other: &Self) -> (r: bool) {
        match (self, other) {
            (RuleValue::Bool(a), RuleValue::Bool(b)) => *a == *b,
            (RuleValue::Int(a), RuleValue::Int(b)) => *a == *b,
            (RuleValue::Float(a), RuleValue::Float(b)) => eq_bits(*a, *b),
            _ => false,
        }
    }
}

impl vstd::std_specs::cmp::PartialEqSpecImpl for RuleValue {
    open spec fn obeys_eq_spec() -> bool {
        true
    }

    open spec fn eq_spec(&self, other: &Self) -> bool {
        self.same(*other)
    }
}

/// An inclusive bound of a numeric rule, with the text `f64`'s `Display`
/// writes for it.
#[derive(Clone, Copy, Debug)]
pub struct Bound {
    pub value: RuleValue,
    pub text: &'static str,
}

/// Static metadata for one rule.
#[derive(Clone, Copy, Debug)]
pub struct RuleDef {
    pub name: &'static str,
    pub category: RuleCategory,
    pub kind: ValueKind,
    pub default: RuleValue,
    /// Inclusive lower bound for numeric rules.
    pub min: Option<Bound>,
    /// Inclusive upper bound for numeric rules.
    pub max: Option<Bound>,
    pub desc: &'static str,
}

impl RuleDef {
    /// The value has the rule's kind and lies within its bounds.
    pub open spec fn accepts(self, value: RuleValue) -> bool {
        &&& value.spec_kind() == self.kind
        &&& (self.min matches Some(b) ==> !value.below(b.value))
        &&& (self.max matches Some(b) ==> !b.value.below(value))
    }

    /// The message a refused value is answered with.
    pub open spec fn rejection(self, value: RuleValue) -> Seq<char> {
        if value.spec_kind() != self.kind {
            "rule "@ + self.name@ + " expects a "@ + self.kind.spec_name() + " value"@
        } else if self.min matches Some(b) && value.below(b.value) {
            "rule "@ + self.name@ + " must be >= "@ + self.min.unwrap().text@
        } else {
            "rule "@ + self.name@ + " must be <= "@ + self.max.unwrap().text@
        }
    }

    /// Checks `value` against the rule's kind and bounds.
    pub fn validate(&self, value: RuleValue) -> (r: Result<(), String>)
        ensures
            r is Ok <==> self.accepts(value),
            r matches Err(m) ==> m@ == self.rejection(value),
    {
        if value.kind() != self.kind {
            let m = String::from_str("rule ").concat(self.name).concat(" expects a ").concat(
                self.kind.name(),
            ).concat(" value");
            return Err(m);
        }
        if let Some(min) = self.min {
            if value.is_below(min.value) {
                let m = String::from_str("rule ").concat(self.name).concat(" must be >= ").concat(
                    min.text,
                );
                return Err(m);
            }
        }
        if let Some(max) = self.max {
            if max.value.is_below(value) {
                let m = String::from_str("rule ").concat(self.name).concat(" must be <= ").concat(
                    max.text,
                );
                return Err(m);
            }
        }
        Ok(())
    }
}

/// Every available carpet rule, in catalog order.
#[derive(Clone, Copy, PartialEq, Eq, Debug, Structural)]
pub enum Rule {
        ExplosionNoBlockDamage,
        ExplosionNoEntityDamage,
        TntPrimerMomentumRemoved,
        TntDoNotUpdate,
        TntRandomRange,
        HardcodeTntAngle,
        MergeTnt,
        HopperCounters,
        RenewableSponges,
        MovableAmethyst,
        RenewableDeepslate,
        RenewableBlackstone,
        MissingTools,
        DesertShrubs,
        FillUpdates,
        FillLimit,
        MaxEntityCollisions,
        MomentumClampThreshold,
        XpNoCooldown,
        MobCapMultiplier,
        ForceloadLimit,
        SpawnChunkRadius,
        CreativePlayersLoadChunks,
        PushLimit,
        RailPowerLimit,
        PingPlayerListLimit,
}

impl Rule {
    /// All rules, in catalog order.
    pub const ALL: [Rule; 26] = [
        Rule::ExplosionNoBlockDamage,
        Rule::ExplosionNoEntityDamage,
        Rule::TntPrimerMomentumRemoved,
        Rule::TntDoNotUpdate,
        Rule::TntRandomRange,
        Rule::HardcodeTntAngle,
        Rule::MergeTnt,
        Rule::HopperCounters,
        Rule::RenewableSponges,
        Rule::MovableAmethyst,
        Rule::RenewableDeepslate,
        Rule::RenewableBlackstone,
        Rule::MissingTools,
        Rule::DesertShrubs,
        Rule::FillUpdates,
        Rule::FillLimit,
        Rule::MaxEntityCollisions,
        Rule::MomentumClampThreshold,
        Rule::XpNoCooldown,
        Rule::MobCapMultiplier,
        Rule::ForceloadLimit,
        Rule::SpawnChunkRadius,
        Rule::CreativePlayersLoadChunks,
        Rule::PushLimit,
        Rule::RailPowerLimit,
        Rule::PingPlayerListLimit,
    ];

    /// Number of rules in the catalog.
    pub open spec fn count() -> nat {
        26
    }

    /// Position of the rule in the catalog.
    pub open spec fn spec_index(self) -> nat {
        match self {
            Rule::ExplosionNoBlockDamage => 0,
            Rule::ExplosionNoEntityDamage => 1,
            Rule::TntPrimerMomentumRemoved => 2,
            Rule::TntDoNotUpdate => 3,
            Rule::TntRandomRange => 4,
            Rule::HardcodeTntAngle => 5,
            Rule::MergeTnt => 6,
            Rule::HopperCounters => 7,
            Rule::RenewableSponges => 8,
            Rule::MovableAmethyst => 9,
            Rule::RenewableDeepslate => 10,
            Rule::RenewableBlackstone => 11,
            Rule::MissingTools => 12,
            Rule::DesertShrubs => 13,
            Rule::FillUpdates => 14,
            Rule::FillLimit => 15,
            Rule::MaxEntityCollisions => 16,
            Rule::MomentumClampThreshold => 17,
            Rule::XpNoCooldown => 18,
            Rule::MobCapMultiplier => 19,
            Rule::ForceloadLimit => 20,
            Rule::SpawnChunkRadius => 21,
            Rule::CreativePlayersLoadChunks => 22,
            Rule::PushLimit => 23,
            Rule::RailPowerLimit => 24,
            Rule::PingPlayerListLimit => 25,
        }
    }

    /// The rule at catalog position `i`.
    pub open spec fn spec_at(i: int) -> Rule {
        if i == 0 {
            Rule::ExplosionNoBlockDamage
        } else         if i == 1 {
            Rule::ExplosionNoEntityDamage
        } else         if i == 2 {
            Rule::TntPrimerMomentumRemoved
        } else         if i == 3 {
            Rule::TntDoNotUpdate
        } else         if i == 4 {
            Rule::TntRandomRange
        } else         if i == 5 {
            Rule::HardcodeTntAngle
        } else         if i == 6 {
            Rule::MergeTnt
        } else         if i == 7 {
            Rule::HopperCounters
        } else         if i == 8 {
            Rule::RenewableSponges
        } else         if i == 9 {
            Rule::MovableAmethyst
        } else         if i == 10 {
            Rule::RenewableDeepslate
        } else         if i == 11 {
            Rule::RenewableBlackstone
        } else         if i == 12 {
            Rule::MissingTools
        } else         if i == 13 {
            Rule::DesertShrubs
        } else         if i == 14 {
            Rule::FillUpdates
        } else         if i == 15 {
            Rule::FillLimit
        } else         if i == 16 {
            Rule::MaxEntityCollisions
        } else         if i == 17 {
            Rule::MomentumClampThreshold
        } else         if i == 18 {
            Rule::XpNoCooldown
        } else         if i == 19 {
            Rule::MobCapMultiplier
        } else         if i == 20 {
            Rule::ForceloadLimit
        } else         if i == 21 {
            Rule::SpawnChunkRadius
        } else         if i == 22 {
            Rule::CreativePlayersLoadChunks
        } else         if i == 23 {
            Rule::PushLimit
        } else         if i == 24 {
            Rule::RailPowerLimit
        } else {
            Rule::PingPlayerListLimit
        }
    }

    /// The static metadata of the rule.
    pub open spec fn spec_def(self) -> RuleDef {
        match self {
            Rule::ExplosionNoBlockDamage => RuleDef {
                name: "explosionNoBlockDamage",
                category: RuleCategory::Tnt,
                kind: ValueKind::Bool,
                default: RuleValue::Bool(false),
                min: None,
                max: None,
                desc: "Explosions do not destroy blocks.",
            },
            Rule::ExplosionNoEntityDamage => RuleDef {
                name: "explosionNoEntityDamage",
                category: RuleCategory::Tnt,
                kind: ValueKind::Bool,
                default: RuleValue::Bool(false),
                min: None,
                max: None,
                desc: "Explosions do not damage entities.",
            },
            Rule::TntPrimerMomentumRemoved => RuleDef {
                name: "tntPrimerMomentumRemoved",
                category: RuleCategory::Tnt,
                kind: ValueKind::Bool,
                default: RuleValue::Bool(false),
                min: None,
                max: None,
                desc: "Primed TNT gets no random horizontal momentum.",
            },
            Rule::TntDoNotUpdate => RuleDef {
                name: "tntDoNotUpdate",
                category: RuleCategory::Tnt,
                kind: ValueKind::Bool,
                default: RuleValue::Bool(false),
                min: None,
                max: None,
                desc: "TNT ignited by block updates stays sleeping instead of priming.",
            },
            Rule::TntRandomRange => RuleDef {
                name: "tntRandomRange",
                category: RuleCategory::Tnt,
                kind: ValueKind::Float,
                default: RuleValue::Float(0xbff0000000000000u64),
                min: Some(Bound { value: RuleValue::Float(0xbff0000000000000u64), text: "-1" }),
                max: None,
                desc: "Fixed TNT explosion radius (-1 keeps vanilla randomness).",
            },
            Rule::HardcodeTntAngle => RuleDef {
                name: "hardcodeTNTangle",
                category: RuleCategory::Tnt,
                kind: ValueKind::Float,
                default: RuleValue::Float(0xbff0000000000000u64),
                min: Some(Bound { value: RuleValue::Float(0xbff0000000000000u64), text: "-1" }),
                max: Some(Bound { value: RuleValue::Float(0x401921fb54442d18u64), text: "6.283185307179586" }),
                desc: "Fixed horizontal launch angle for primed TNT (-1 keeps vanilla randomness).",
            },
            Rule::MergeTnt => RuleDef {
                name: "mergeTNT",
                category: RuleCategory::Tnt,
                kind: ValueKind::Bool,
                default: RuleValue::Bool(false),
                min: None,
                max: None,
                desc: "Stationary primed TNT entities merge into one to reduce entity load.",
            },
            Rule::HopperCounters => RuleDef {
                name: "hopperCounters",
                category: RuleCategory::Feature,
                kind: ValueKind::Bool,
                default: RuleValue::Bool(false),
                min: None,
                max: None,
                desc: "Hoppers transferring into wool count and destroy the items (16 channels, /counter).",
            },
            Rule::RenewableSponges => RuleDef {
                name: "renewableSponges",
                category: RuleCategory::Feature,
                kind: ValueKind::Bool,
                default: RuleValue::Bool(false),
                min: None,
                max: None,
                desc: "Lightning striking a guardian turns it into an elder guardian.",
            },
            Rule::MovableAmethyst => RuleDef {
                name: "movableAmethyst",
                category: RuleCategory::Feature,
                kind: ValueKind::Bool,
                default: RuleValue::Bool(false),
                min: None,
                max: None,
                desc: "Amethyst blocks (including budding) can be moved by pistons.",
            },
            Rule::RenewableDeepslate => RuleDef {
                name: "renewableDeepslate",
                category: RuleCategory::Feature,
                kind: ValueKind::Bool,
                default: RuleValue::Bool(false),
                min: None,
                max: None,
                desc: "Lava meeting water below y=0 produces deepslate instead of cobblestone.",
            },
            Rule::RenewableBlackstone => RuleDef {
                name: "renewableBlackstone",
                category: RuleCategory::Feature,
                kind: ValueKind::Bool,
                default: RuleValue::Bool(false),
                min: None,
                max: None,
                desc: "Lava flowing over blue ice without soul soil forms blackstone instead of nothing.",
            },
            Rule::MissingTools => RuleDef {
                name: "missingTools",
                category: RuleCategory::Survival,
                kind: ValueKind::Bool,
                default: RuleValue::Bool(false),
                min: None,
                max: None,
                desc: "Pickaxes also break glass at pickaxe speed.",
            },
            Rule::DesertShrubs => RuleDef {
                name: "desertShrubs",
                category: RuleCategory::Feature,
                kind: ValueKind::Bool,
                default: RuleValue::Bool(false),
                min: None,
                max: None,
                desc: "Saplings in hot, dry biomes wither into dead bushes (unless water is near).",
            },
            Rule::FillUpdates => RuleDef {
                name: "fillUpdates",
                category: RuleCategory::Creative,
                kind: ValueKind::Bool,
                default: RuleValue::Bool(true),
                min: None,
                max: None,
                desc: "Blocks placed by /fill, /clone and /setblock cause neighbor updates.",
            },
            Rule::FillLimit => RuleDef {
                name: "fillLimit",
                category: RuleCategory::Creative,
                kind: ValueKind::Int,
                default: RuleValue::Int(32768i64),
                min: Some(Bound { value: RuleValue::Int(1i64), text: "1" }),
                max: Some(Bound { value: RuleValue::Int(2000000i64), text: "2000000" }),
                desc: "Maximum volume changed by /fill and /clone in one command.",
            },
            Rule::MaxEntityCollisions => RuleDef {
                name: "maxEntityCollisions",
                category: RuleCategory::Optimization,
                kind: ValueKind::Int,
                default: RuleValue::Int(0i64),
                min: Some(Bound { value: RuleValue::Int(0i64), text: "0" }),
                max: None,
                desc: "Maximum entity collisions processed per entity per tick (0 = unlimited).",
            },
            Rule::MomentumClampThreshold => RuleDef {
                name: "momentumClampThreshold",
                category: RuleCategory::Optimization,
                kind: ValueKind::Float,
                default: RuleValue::Float(0x3f689374bc6a7efau64),
                min: Some(Bound { value: RuleValue::Float(0x0u64), text: "0" }),
                max: None,
                desc: "Momentum below this is zeroed; 0 disables the vanilla clamp.",
            },
            Rule::XpNoCooldown => RuleDef {
                name: "xpNoCooldown",
                category: RuleCategory::Survival,
                kind: ValueKind::Bool,
                default: RuleValue::Bool(false),
                min: None,
                max: None,
                desc: "Players absorb experience orbs instantly without the pickup delay.",
            },
            Rule::MobCapMultiplier => RuleDef {
                name: "mobCapMultiplier",
                category: RuleCategory::Optimization,
                kind: ValueKind::Float,
                default: RuleValue::Float(0x3ff0000000000000u64),
                min: Some(Bound { value: RuleValue::Float(0x0u64), text: "0" }),
                max: None,
                desc: "Multiplier applied to the global mob cap formula.",
            },
            Rule::ForceloadLimit => RuleDef {
                name: "forceloadLimit",
                category: RuleCategory::Feature,
                kind: ValueKind::Int,
                default: RuleValue::Int(256i64),
                min: Some(Bound { value: RuleValue::Int(1i64), text: "1" }),
                max: None,
                desc: "Maximum number of chunks force-loaded via /forceload.",
            },
            Rule::SpawnChunkRadius => RuleDef {
                name: "spawnChunkRadius",
                category: RuleCategory::Feature,
                kind: ValueKind::Int,
                default: RuleValue::Int(0i64),
                min: Some(Bound { value: RuleValue::Int(0i64), text: "0" }),
                max: Some(Bound { value: RuleValue::Int(32i64), text: "32" }),
                desc: "Radius of spawn chunks kept active without players nearby (0 = vanilla).",
            },
            Rule::CreativePlayersLoadChunks => RuleDef {
                name: "creativePlayersLoadChunks",
                category: RuleCategory::Creative,
                kind: ValueKind::Bool,
                default: RuleValue::Bool(true),
                min: None,
                max: None,
                desc: "Creative-mode players still load chunks; set false to treat them like spectators.",
            },
            Rule::PushLimit => RuleDef {
                name: "pushLimit",
                category: RuleCategory::Creative,
                kind: ValueKind::Int,
                default: RuleValue::Int(12i64),
                min: Some(Bound { value: RuleValue::Int(1i64), text: "1" }),
                max: Some(Bound { value: RuleValue::Int(1024i64), text: "1024" }),
                desc: "Maximum number of blocks a piston can push.",
            },
            Rule::RailPowerLimit => RuleDef {
                name: "railPowerLimit",
                category: RuleCategory::Creative,
                kind: ValueKind::Int,
                default: RuleValue::Int(9i64),
                min: Some(Bound { value: RuleValue::Int(1i64), text: "1" }),
                max: Some(Bound { value: RuleValue::Int(1024i64), text: "1024" }),
                desc: "Distance powered rails propagate their power along a track.",
            },
            Rule::PingPlayerListLimit => RuleDef {
                name: "pingPlayerListLimit",
                category: RuleCategory::Creative,
                kind: ValueKind::Int,
                default: RuleValue::Int(12i64),
                min: Some(Bound { value: RuleValue::Int(0i64), text: "0" }),
                max: None,
                desc: "Maximum number of players included in the status (ping) player sample.",
            },
        }
    }

    /// Position of the rule in the catalog.
    pub fn index(self) -> (i: usize)
        ensures
            i == self.spec_index(),
            i < Rule::count(),
    {
        match self {
            Rule::ExplosionNoBlockDamage => 0,
            Rule::ExplosionNoEntityDamage => 1,
            Rule::TntPrimerMomentumRemoved => 2,
            Rule::TntDoNotUpdate => 3,
            Rule::TntRandomRange => 4,
            Rule::HardcodeTntAngle => 5,
            Rule::MergeTnt => 6,
            Rule::HopperCounters => 7,
            Rule::RenewableSponges => 8,
            Rule::MovableAmethyst => 9,
            Rule::RenewableDeepslate => 10,
            Rule::RenewableBlackstone => 11,
            Rule::MissingTools => 12,
            Rule::DesertShrubs => 13,
            Rule::FillUpdates => 14,
            Rule::FillLimit => 15,
            Rule::MaxEntityCollisions => 16,
            Rule::MomentumClampThreshold => 17,
            Rule::XpNoCooldown => 18,
            Rule::MobCapMultiplier => 19,
            Rule::ForceloadLimit => 20,
            Rule::SpawnChunkRadius => 21,
            Rule::CreativePlayersLoadChunks => 22,
            Rule::PushLimit => 23,
            Rule::RailPowerLimit => 24,
            Rule::PingPlayerListLimit => 25,
        }
    }

    /// The rule at catalog position `i`, if any.
    pub fn from_index(i: usize) -> (r: Option<Rule>)
        ensures
            i < Rule::count() ==> r == Some(Rule::spec_at(i as int)),
            i >= Rule::count() ==> r is None,
    {
        match i {
            0 => Some(Rule::ExplosionNoBlockDamage),
            1 => Some(Rule::ExplosionNoEntityDamage),
            2 => Some(Rule::TntPrimerMomentumRemoved),
            3 => Some(Rule::TntDoNotUpdate),
            4 => Some(Rule::TntRandomRange),
            5 => Some(Rule::HardcodeTntAngle),
            6 => Some(Rule::MergeTnt),
            7 => Some(Rule::HopperCounters),
            8 => Some(Rule::RenewableSponges),
            9 => Some(Rule::MovableAmethyst),
            10 => Some(Rule::RenewableDeepslate),
            11 => Some(Rule::RenewableBlackstone),
            12 => Some(Rule::MissingTools),
            13 => Some(Rule::DesertShrubs),
            14 => Some(Rule::FillUpdates),
            15 => Some(Rule::FillLimit),
            16 => Some(Rule::MaxEntityCollisions),
            17 => Some(Rule::MomentumClampThreshold),
            18 => Some(Rule::XpNoCooldown),
            19 => Some(Rule::MobCapMultiplier),
            20 => Some(Rule::ForceloadLimit),
            21 => Some(Rule::SpawnChunkRadius),
            22 => Some(Rule::CreativePlayersLoadChunks),
            23 => Some(Rule::PushLimit),
            24 => Some(Rule::RailPowerLimit),
            25 => Some(Rule::PingPlayerListLimit),
            _ => None,
        }
    }

    /// The static metadata of the rule.
    pub fn def(self) -> (d: RuleDef)
        ensures
            d == self.spec_def(),
    {
        match self {
            Rule::ExplosionNoBlockDamage => RuleDef {
                name: "explosionNoBlockDamage",
                category: RuleCategory::Tnt,
                kind: ValueKind::Bool,
                default: RuleValue::Bool(false),
                min: None,
                max: None,
                desc: "Explosions do not destroy blocks.",
            },
            Rule::ExplosionNoEntityDamage => RuleDef {
                name: "explosionNoEntityDamage",
                category: RuleCategory::Tnt,
                kind: ValueKind::Bool,
                default: RuleValue::Bool(false),
                min: None,
                max: None,
                desc: "Explosions do not damage entities.",
            },
            Rule::TntPrimerMomentumRemoved => RuleDef {
                name: "tntPrimerMomentumRemoved",
                category: RuleCategory::Tnt,
                kind: ValueKind::Bool,
                default: RuleValue::Bool(false),
                min: None,
                max: None,
                desc: "Primed TNT gets no random horizontal momentum.",
            },
            Rule::TntDoNotUpdate => RuleDef {
                name: "tntDoNotUpdate",
                category: RuleCategory::Tnt,
                kind: ValueKind::Bool,
                default: RuleValue::Bool(false),
                min: None,
                max: None,
                desc: "TNT ignited by block updates stays sleeping instead of priming.",
            },
            Rule::TntRandomRange => RuleDef {
                name: "tntRandomRange",
                category: RuleCategory::Tnt,
                kind: ValueKind::Float,
                default: RuleValue::Float(0xbff0000000000000u64),
                min: Some(Bound { value: RuleValue::Float(0xbff0000000000000u64), text: "-1" }),
                max: None,
                desc: "Fixed TNT explosion radius (-1 keeps vanilla randomness).",
            },
            Rule::HardcodeTntAngle => RuleDef {
                name: "hardcodeTNTangle",
                category: RuleCategory::Tnt,
                kind: ValueKind::Float,
                default: RuleValue::Float(0xbff0000000000000u64),
                min: Some(Bound { value: RuleValue::Float(0xbff0000000000000u64), text: "-1" }),
                max: Some(Bound { value: RuleValue::Float(0x401921fb54442d18u64), text: "6.283185307179586" }),
                desc: "Fixed horizontal launch angle for primed TNT (-1 keeps vanilla randomness).",
            },
            Rule::MergeTnt => RuleDef {
                name: "mergeTNT",
                category: RuleCategory::Tnt,
                kind: ValueKind::Bool,
                default: RuleValue::Bool(false),
                min: None,
                max: None,
                desc: "Stationary primed TNT entities merge into one to reduce entity load.",
            },
            Rule::HopperCounters => RuleDef {
                name: "hopperCounters",
                category: RuleCategory::Feature,
                kind: ValueKind::Bool,
                default: RuleValue::Bool(false),
                min: None,
                max: None,
                desc: "Hoppers transferring into wool count and destroy the items (16 channels, /counter).",
            },
            Rule::RenewableSponges => RuleDef {
                name: "renewableSponges",
                category: RuleCategory::Feature,
                kind: ValueKind::Bool,
                default: RuleValue::Bool(false),
                min: None,
                max: None,
                desc: "Lightning striking a guardian turns it into an elder guardian.",
            },
            Rule::MovableAmethyst => RuleDef {
                name: "movableAmethyst",
                category: RuleCategory::Feature,
                kind: ValueKind::Bool,
                default: RuleValue::Bool(false),
                min: None,
                max: None,
                desc: "Amethyst blocks (including budding) can be moved by pistons.",
            },
            Rule::RenewableDeepslate => RuleDef {
                name: "renewableDeepslate",
                category: RuleCategory::Feature,
                kind: ValueKind::Bool,
                default: RuleValue::Bool(false),
                min: None,
                max: None,
                desc: "Lava meeting water below y=0 produces deepslate instead of cobblestone.",
            },
            Rule::RenewableBlackstone => RuleDef {
                name: "renewableBlackstone",
                category: RuleCategory::Feature,
                kind: ValueKind::Bool,
                default: RuleValue::Bool(false),
                min: None,
                max: None,
                desc: "Lava flowing over blue ice without soul soil forms blackstone instead of nothing.",
            },
            Rule::MissingTools => RuleDef {
                name: "missingTools",
                category: RuleCategory::Survival,
                kind: ValueKind::Bool,
                default: RuleValue::Bool(false),
                min: None,
                max: None,
                desc: "Pickaxes also break glass at pickaxe speed.",
            },
            Rule::DesertShrubs => RuleDef {
                name: "desertShrubs",
                category: RuleCategory::Feature,
                kind: ValueKind::Bool,
                default: RuleValue::Bool(false),
                min: None,
                max: None,
                desc: "Saplings in hot, dry biomes wither into dead bushes (unless water is near).",
            },
            Rule::FillUpdates => RuleDef {
                name: "fillUpdates",
                category: RuleCategory::Creative,
                kind: ValueKind::Bool,
                default: RuleValue::Bool(true),
                min: None,
                max: None,
                desc: "Blocks placed by /fill, /clone and /setblock cause neighbor updates.",
            },
            Rule::FillLimit => RuleDef {
                name: "fillLimit",
                category: RuleCategory::Creative,
                kind: ValueKind::Int,
                default: RuleValue::Int(32768i64),
                min: Some(Bound { value: RuleValue::Int(1i64), text: "1" }),
                max: Some(Bound { value: RuleValue::Int(2000000i64), text: "2000000" }),
                desc: "Maximum volume changed by /fill and /clone in one command.",
            },
            Rule::MaxEntityCollisions => RuleDef {
                name: "maxEntityCollisions",
                category: RuleCategory::Optimization,
                kind: ValueKind::Int,
                default: RuleValue::Int(0i64),
                min: Some(Bound { value: RuleValue::Int(0i64), text: "0" }),
                max: None,
                desc: "Maximum entity collisions processed per entity per tick (0 = unlimited).",
            },
            Rule::MomentumClampThreshold => RuleDef {
                name: "momentumClampThreshold",
                category: RuleCategory::Optimization,
                kind: ValueKind::Float,
                default: RuleValue::Float(0x3f689374bc6a7efau64),
                min: Some(Bound { value: RuleValue::Float(0x0u64), text: "0" }),
                max: None,
                desc: "Momentum below this is zeroed; 0 disables the vanilla clamp.",
            },
            Rule::XpNoCooldown => RuleDef {
                name: "xpNoCooldown",
                category: RuleCategory::Survival,
                kind: ValueKind::Bool,
                default: RuleValue::Bool(false),
                min: None,
                max: None,
                desc: "Players absorb experience orbs instantly without the pickup delay.",
            },
            Rule::MobCapMultiplier => RuleDef {
                name: "mobCapMultiplier",
                category: RuleCategory::Optimization,
                kind: ValueKind::Float,
                default: RuleValue::Float(0x3ff0000000000000u64),
                min: Some(Bound { value: RuleValue::Float(0x0u64), text: "0" }),
                max: None,
                desc: "Multiplier applied to the global mob cap formula.",
            },
            Rule::ForceloadLimit => RuleDef {
                name: "forceloadLimit",
                category: RuleCategory::Feature,
                kind: ValueKind::Int,
                default: RuleValue::Int(256i64),
                min: Some(Bound { value: RuleValue::Int(1i64), text: "1" }),
                max: None,
                desc: "Maximum number of chunks force-loaded via /forceload.",
            },
            Rule::SpawnChunkRadius => RuleDef {
                name: "spawnChunkRadius",
                category: RuleCategory::Feature,
                kind: ValueKind::Int,
                default: RuleValue::Int(0i64),
                min: Some(Bound { value: RuleValue::Int(0i64), text: "0" }),
                max: Some(Bound { value: RuleValue::Int(32i64), text: "32" }),
                desc: "Radius of spawn chunks kept active without players nearby (0 = vanilla).",
            },
            Rule::CreativePlayersLoadChunks => RuleDef {
                name: "creativePlayersLoadChunks",
                category: RuleCategory::Creative,
                kind: ValueKind::Bool,
                default: RuleValue::Bool(true),
                min: None,
                max: None,
                desc: "Creative-mode players still load chunks; set false to treat them like spectators.",
            },
            Rule::PushLimit => RuleDef {
                name: "pushLimit",
                category: RuleCategory::Creative,
                kind: ValueKind::Int,
                default: RuleValue::Int(12i64),
                min: Some(Bound { value: RuleValue::Int(1i64), text: "1" }),
                max: Some(Bound { value: RuleValue::Int(1024i64), text: "1024" }),
                desc: "Maximum number of blocks a piston can push.",
            },
            Rule::RailPowerLimit => RuleDef {
                name: "railPowerLimit",
                category: RuleCategory::Creative,
                kind: ValueKind::Int,
                default: RuleValue::Int(9i64),
                min: Some(Bound { value: RuleValue::Int(1i64), text: "1" }),
                max: Some(Bound { value: RuleValue::Int(1024i64), text: "1024" }),
                desc: "Distance powered rails propagate their power along a track.",
            },
            Rule::PingPlayerListLimit => RuleDef {
                name: "pingPlayerListLimit",
                category: RuleCategory::Creative,
                kind: ValueKind::Int,
                default: RuleValue::Int(12i64),
                min: Some(Bound { value: RuleValue::Int(0i64), text: "0" }),
                max: None,
                desc: "Maximum number of players included in the status (ping) player sample.",
            },
        }
    }
}

impl Rule {
    pub open spec fn spec_name(self) -> Seq<char> {
        self.spec_def().name@
    }

    /// The rule whose name is exactly `name`, if any.
    pub fn from_name(name: &str) -> (r: Option<Rule>)
        ensures
            r == rule_named(name@),
    {
        proof {
            lemma_rule_positions();
        }
        let mut i: usize = 0;
        while i < 26
            invariant
                i <= 26,
                forall|j: int| 0 <= j < i ==> (#[trigger] Rule::spec_at(j)).spec_name() != name@,
            decreases 26 - i,
        {
            let rule = match Rule::from_index(i) {
                Some(rule) => rule,
                None => {
                    return None;
                },
            };
            if str_eq(rule.def().name, name) {
                proof {
                    lemma_rule_names_distinct();
                    assert(rule.spec_name() == name@);
                    let c = choose|c: Rule| #[trigger] c.spec_name() == name@;
                    assert(c.spec_name() == name@);
                    assert(Rule::spec_at(c.spec_index() as int) == c);
                    assert(Rule::spec_at(i as int) == rule);
                }
                return Some(rule);
            }
            i = i + 1;
        }
        proof {
            assert forall|c: Rule| #[trigger] c.spec_name() != name@ by {
                assert(Rule::spec_at(c.spec_index() as int) == c);
            }
        }
        None
    }
}

/// The rule named `name`, if the catalog has one.
pub open spec fn rule_named(name: Seq<char>) -> Option<Rule> {
    if exists|c: Rule| #[trigger] c.spec_name() == name {
        Some(choose|c: Rule| #[trigger] c.spec_name() == name)
    } else {
        None
    }
}

/// Each catalog position holds the rule that reports it.
pub proof fn lemma_rule_positions()
    ensures
        forall|r: Rule| #[trigger] Rule::spec_at(r.spec_index() as int) == r,
        forall|r: Rule| #[trigger] r.spec_index() < Rule::count(),
        forall|i: int| 0 <= i < Rule::count() ==> (#[trigger] Rule::spec_at(i)).spec_index() == i,
{
    assert forall|r: Rule| #[trigger] Rule::spec_at(r.spec_index() as int) == r by {
        match r {
            Rule::ExplosionNoBlockDamage => {},
            Rule::ExplosionNoEntityDamage => {},
            Rule::TntPrimerMomentumRemoved => {},
            Rule::TntDoNotUpdate => {},
            Rule::TntRandomRange => {},
            Rule::HardcodeTntAngle => {},
            Rule::MergeTnt => {},
            Rule::HopperCounters => {},
            Rule::RenewableSponges => {},
            Rule::MovableAmethyst => {},
            Rule::RenewableDeepslate => {},
            Rule::RenewableBlackstone => {},
            Rule::MissingTools => {},
            Rule::DesertShrubs => {},
            Rule::FillUpdates => {},
            Rule::FillLimit => {},
            Rule::MaxEntityCollisions => {},
            Rule::MomentumClampThreshold => {},
            Rule::XpNoCooldown => {},
            Rule::MobCapMultiplier => {},
            Rule::ForceloadLimit => {},
            Rule::SpawnChunkRadius => {},
            Rule::CreativePlayersLoadChunks => {},
            Rule::PushLimit => {},
            Rule::RailPowerLimit => {},
            Rule::PingPlayerListLimit => {},
        }
    }
}

/// Length, first and fourth character of a name, folded into one integer.
spec fn name_key(s: Seq<char>) -> int {
    s.len() * 1000000 + (s[0] as int) * 1000 + (s[3] as int)
}

/// The catalog position of the rule whose name has key `k`.
spec fn position_of_key(k: int) -> int {
    if k == 22101108 {
        0
    } else     if k == 23101108 {
        1
    } else     if k == 24116080 {
        2
    } else     if k == 14116068 {
        3
    } else     if k == 14116082 {
        4
    } else     if k == 16104100 {
        5
    } else     if k == 8109103 {
        6
    } else     if k == 14104112 {
        7
    } else     if k == 16114101 {
        8
    } else     if k == 15109097 {
        9
    } else     if k == 18114101 {
        10
    } else     if k == 19114101 {
        11
    } else     if k == 12109115 {
        12
    } else     if k == 12100101 {
        13
    } else     if k == 11102108 {
        14
    } else     if k == 9102108 {
        15
    } else     if k == 19109069 {
        16
    } else     if k == 22109101 {
        17
    } else     if k == 12120111 {
        18
    } else     if k == 16109067 {
        19
    } else     if k == 14102099 {
        20
    } else     if k == 16115119 {
        21
    } else     if k == 25099097 {
        22
    } else     if k == 9112104 {
        23
    } else     if k == 14114108 {
        24
    } else     if k == 19112103 {
        25
    } else {
        -1
    }
}

proof fn lemma_name_key_position(r: Rule)
    ensures
        position_of_key(name_key(r.spec_name())) == r.spec_index(),
{
    match r {
        Rule::ExplosionNoBlockDamage => {
            reveal_strlit("explosionNoBlockDamage");
        },
        Rule::ExplosionNoEntityDamage => {
            reveal_strlit("explosionNoEntityDamage");
        },
        Rule::TntPrimerMomentumRemoved => {
            reveal_strlit("tntPrimerMomentumRemoved");
        },
        Rule::TntDoNotUpdate => {
            reveal_strlit("tntDoNotUpdate");
        },
        Rule::TntRandomRange => {
            reveal_strlit("tntRandomRange");
        },
        Rule::HardcodeTntAngle => {
            reveal_strlit("hardcodeTNTangle");
        },
        Rule::MergeTnt => {
            reveal_strlit("mergeTNT");
        },
        Rule::HopperCounters => {
            reveal_strlit("hopperCounters");
        },
        Rule::RenewableSponges => {
            reveal_strlit("renewableSponges");
        },
        Rule::MovableAmethyst => {
            reveal_strlit("movableAmethyst");
        },
        Rule::RenewableDeepslate => {
            reveal_strlit("renewableDeepslate");
        },
        Rule::RenewableBlackstone => {
            reveal_strlit("renewableBlackstone");
        },
        Rule::MissingTools => {
            reveal_strlit("missingTools");
        },
        Rule::DesertShrubs => {
            reveal_strlit("desertShrubs");
        },
        Rule::FillUpdates => {
            reveal_strlit("fillUpdates");
        },
        Rule::FillLimit => {
            reveal_strlit("fillLimit");
        },
        Rule::MaxEntityCollisions => {
            reveal_strlit("maxEntityCollisions");
        },
        Rule::MomentumClampThreshold => {
            reveal_strlit("momentumClampThreshold");
        },
        Rule::XpNoCooldown => {
            reveal_strlit("xpNoCooldown");
        },
        Rule::MobCapMultiplier => {
            reveal_strlit("mobCapMultiplier");
        },
        Rule::ForceloadLimit => {
            reveal_strlit("forceloadLimit");
        },
        Rule::SpawnChunkRadius => {
            reveal_strlit("spawnChunkRadius");
        },
        Rule::CreativePlayersLoadChunks => {
            reveal_strlit("creativePlayersLoadChunks");
        },
        Rule::PushLimit => {
            reveal_strlit("pushLimit");
        },
        Rule::RailPowerLimit => {
            reveal_strlit("railPowerLimit");
        },
        Rule::PingPlayerListLimit => {
            reveal_strlit("pingPlayerListLimit");
        },
    }
}

/// No two rules share a name.
pub proof fn lemma_rule_names_distinct()
    ensures
        forall|a: Rule, b: Rule| a.spec_name() == b.spec_name() ==> a == b,
{
    lemma_rule_positions();
    assert forall|a: Rule, b: Rule| a.spec_name() == b.spec_name() implies a == b by {
        lemma_name_key_position(a);
        lemma_name_key_position(b);
        assert(Rule::spec_at(a.spec_index() as int) == a);
        assert(Rule::spec_at(b.spec_index() as int) == b);
    }
}

/// Every default has its rule's kind and lies within its bounds, and every
/// bound has its rule's kind.
pub proof fn lemma_catalog_consistent()
    ensures
        forall|r: Rule| #[trigger] r.spec_def().accepts(r.spec_def().default),
        forall|r: Rule| (#[trigger] r.spec_def()).min matches Some(b) ==> b.value.spec_kind() == r.spec_def().kind,
        forall|r: Rule| (#[trigger] r.spec_def()).max matches Some(b) ==> b.value.spec_kind() == r.spec_def().kind,
{
    assert forall|r: Rule| #[trigger] r.spec_def().accepts(r.spec_def().default) by {
        match r {
            Rule::ExplosionNoBlockDamage => {},
            Rule::ExplosionNoEntityDamage => {},
            Rule::TntPrimerMomentumRemoved => {},
            Rule::TntDoNotUpdate => {},
            Rule::TntRandomRange => {},
            Rule::HardcodeTntAngle => {},
            Rule::MergeTnt => {},
            Rule::HopperCounters => {},
            Rule::RenewableSponges => {},
            Rule::MovableAmethyst => {},
            Rule::RenewableDeepslate => {},
            Rule::RenewableBlackstone => {},
            Rule::MissingTools => {},
            Rule::DesertShrubs => {},
            Rule::FillUpdates => {},
            Rule::FillLimit => {},
            Rule::MaxEntityCollisions => {},
            Rule::MomentumClampThreshold => {},
            Rule::XpNoCooldown => {},
            Rule::MobCapMultiplier => {},
            Rule::ForceloadLimit => {},
            Rule::SpawnChunkRadius => {},
            Rule::CreativePlayersLoadChunks => {},
            Rule::PushLimit => {},
            Rule::RailPowerLimit => {},
            Rule::PingPlayerListLimit => {},
        }
    }
}

/// The default value of every rule, in catalog order.
pub open spec fn default_values() -> Seq<RuleValue> {
    Seq::new(Rule::count(), |i: int| Rule::spec_at(i).spec_def().default)
}

/// A sequence of values holds one value per rule, each of its rule's kind.
pub open spec fn well_kinded(v: Seq<RuleValue>) -> bool {
    &&& v.len() == Rule::count()
    &&& forall|i: int| 0 <= i < v.len() ==> (#[trigger] v[i]).spec_kind() == Rule::spec_at(i).spec_def().kind
}

/// Applies one persisted `(name, value)` entry: a known rule takes the value
/// when the value passes validation; anything else is dropped.
pub open spec fn apply_entry(v: Seq<RuleValue>, name: Seq<char>, value: RuleValue) -> Seq<RuleValue> {
    match rule_named(name) {
        Some(r) => if r.spec_def().accepts(value) {
            v.update(r.spec_index() as int, value)
        } else {
            v
        },
        None => v,
    }
}

/// Applies persisted entries in order.
pub open spec fn apply_entries(v: Seq<RuleValue>, entries: Seq<(Seq<char>, RuleValue)>) -> Seq<RuleValue>
    decreases entries.len(),
{
    if entries.len() == 0 {
        v
    } else {
        let last = entries.last();
        apply_entry(apply_entries(v, entries.drop_last()), last.0, last.1)
    }
}

/// Snapshot of all rule values, one per rule in catalog order.
#[derive(Debug)]
pub struct RuleValues {
    values: Vec<RuleValue>,
}

impl View for RuleValues {
    type V = Seq<RuleValue>;

    closed spec fn view(&self) -> Seq<RuleValue> {
        self.values@
    }
}

impl RuleValues {
    /// The value of `rule`.
    pub fn read(&self, rule: Rule) -> (v: RuleValue)
        requires
            well_kinded(self@),
        ensures
            v == self@[rule.spec_index() as int],
    {
        self.values[rule.index()]
    }
}

impl Default for RuleValues {
    fn default() -> (d: Self)
        ensures
            d@ == default_values(),
    {
        let mut values: Vec<RuleValue> = Vec::new();
        let mut i: usize = 0;
        while i < 26
            invariant
                i <= 26,
                values@.len() == i,
                forall|j: int| 0 <= j < i ==> values@[j] == Rule::spec_at(j).spec_def().default,
            decreases 26 - i,
        {
            match Rule::from_index(i) {
                Some(rule) => values.push(rule.def().default),
                None => {},
            }
            i = i + 1;
        }
        let d = RuleValues { values };
        assert(d@ =~= default_values());
        d
    }
}

/// Runtime state of all carpet rules.
pub struct CarpetRules {
    values: RuleValues,
}

impl View for CarpetRules {
    type V = Seq<RuleValue>;

    closed spec fn view(&self) -> Seq<RuleValue> {
        self.values@
    }
}

/// The default values are well kinded.
pub proof fn lemma_defaults_well_kinded()
    ensures
        well_kinded(default_values()),
{
    lemma_catalog_consistent();
    assert forall|i: int| 0 <= i < Rule::count() implies (#[trigger] default_values()[i]).spec_kind()
        == Rule::spec_at(i).spec_def().kind by {
        let r = Rule::spec_at(i);
        assert(r.spec_def().accepts(r.spec_def().default));
    }
}

impl CarpetRules {
    /// A store holding every rule's default.
    pub fn new() -> (s: Self)
        ensures
            s@ == default_values(),
            well_kinded(s@),
            all_accepted(s@),
    {
        proof {
            lemma_defaults_well_kinded();
            lemma_defaults_accepted();
        }
        CarpetRules { values: RuleValues::default() }
    }

    /// A copy of the current values.
    pub fn values(&self) -> (v: RuleValues)
        ensures
            v@ == self@,
    {
        let mut values: Vec<RuleValue> = Vec::new();
        let mut i: usize = 0;
        while i < self.values.values.len()
            invariant
                i <= self.values.values@.len(),
                values@ == self.values.values@.take(i as int),
            decreases self.values.values@.len() - i,
        {
            values.push(self.values.values[i]);
            i = i + 1;
        }
        assert(values@ =~= self.values.values@);
        RuleValues { values }
    }

    pub fn get(&self, rule: Rule) -> (v: RuleValue)
        requires
            well_kinded(self@),
        ensures
            v == self@[rule.spec_index() as int],
    {
        self.values.read(rule)
    }

    /// Validates `value` against the rule metadata and applies it.
    pub fn set(&mut self, rule: Rule, value: RuleValue) -> (r: Result<(), String>)
        requires
            well_kinded(old(self)@),
        ensures
            well_kinded(final(self)@),
            r is Ok <==> rule.spec_def().accepts(value),
            r is Ok ==> final(self)@ == old(self)@.update(rule.spec_index() as int, value),
            r matches Err(m) ==> final(self)@ == old(self)@ && m@ == rule.spec_def().rejection(
                value,
            ),
            all_accepted(old(self)@) ==> all_accepted(final(self)@),
    {
        proof {
            lemma_update_accepted(old(self)@, rule, value);
        }
        let def = rule.def();
        match def.validate(value) {
            Ok(()) => {
                proof {
                    lemma_rule_positions();
                }
                let i = rule.index();
                self.values.values.set(i, value);
                Ok(())
            },
            Err(m) => Err(m),
        }
    }

    /// Resets one rule to its default value.
    pub fn reset(&mut self, rule: Rule)
        requires
            well_kinded(old(self)@),
        ensures
            well_kinded(final(self)@),
            final(self)@ == old(self)@.update(rule.spec_index() as int, rule.spec_def().default),
            all_accepted(old(self)@) ==> all_accepted(final(self)@),
    {
        proof {
            lemma_catalog_consistent();
        }
        let default = rule.def().default;
        let r = self.set(rule, default);
        assert(r is Ok);
    }

    /// Replaces every value by its default, then applies the persisted
    /// `(name, value)` entries in order: entries naming an unknown rule or
    /// holding a value the rule refuses are dropped.
    pub fn load_saved(&mut self, entries: &Vec<(String, RuleValue)>)
        ensures
            well_kinded(final(self)@),
            all_accepted(final(self)@),
            final(self)@ == apply_entries(
                default_values(),
                entries@.map_values(|e: (String, RuleValue)| (e.0@, e.1)),
            ),
    {
        proof {
            lemma_defaults_well_kinded();
        }
        let ghost seen = entries@.map_values(|e: (String, RuleValue)| (e.0@, e.1));
        let mut fresh = CarpetRules::new();
        let mut i: usize = 0;
        while i < entries.len()
            invariant
                i <= entries@.len(),
                seen == entries@.map_values(|e: (String, RuleValue)| (e.0@, e.1)),
                well_kinded(fresh@),
                all_accepted(fresh@),
                fresh@ == apply_entries(default_values(), seen.take(i as int)),
            decreases entries.len() - i,
        {
            let (name, value) = (&entries[i].0, entries[i].1);
            assert(seen.take(i + 1).drop_last() =~= seen.take(i as int));
            assert(seen[i as int] == (name@, value));
            match Rule::from_name(name.as_str()) {
                Some(rule) => {
                    let _ = fresh.set(rule, value);
                },
                None => {},
            }
            i = i + 1;
        }
        assert(seen.take(entries.len() as int) =~= seen);
        *self = fresh;
    }

    /// Every rule's `(name, value)`, in catalog order: what gets persisted.
    pub fn persisted_entries(&self) -> (out: Vec<(String, RuleValue)>)
        requires
            well_kinded(self@),
        ensures
            out@.len() == Rule::count(),
            forall|i: int| 0 <= i < Rule::count() ==> (#[trigger] out@[i]).0@ == Rule::spec_at(
                i,
            ).spec_name() && out@[i].1 == self@[i],
            out@.map_values(|e: (String, RuleValue)| (e.0@, e.1)) == persisted_view(self@),
    {
        let mut out: Vec<(String, RuleValue)> = Vec::new();
        let mut i: usize = 0;
        while i < 26
            invariant
                i <= 26,
                well_kinded(self@),
                out@.len() == i,
                forall|j: int| 0 <= j < i ==> (#[trigger] out@[j]).0@ == Rule::spec_at(j).spec_name()
                    && out@[j].1 == self@[j],
            decreases 26 - i,
        {
            match Rule::from_index(i) {
                Some(rule) => {
                    proof {
                        lemma_rule_positions();
                    }
                    out.push((String::from_str(rule.def().name), self.get(rule)));
                },
                None => {},
            }
            i = i + 1;
        }
        assert(out@.map_values(|e: (String, RuleValue)| (e.0@, e.1)) =~= persisted_view(self@));
        out
    }
}


/// Every rule is found again by its own name.
pub proof fn lemma_rule_name_round_trip()
    ensures
        forall|r: Rule| #[trigger] rule_named(r.spec_name()) == Some(r),
{
    lemma_rule_names_distinct();
    assert forall|r: Rule| #[trigger] rule_named(r.spec_name()) == Some(r) by {
        assert(exists|c: Rule| #[trigger] c.spec_name() == r.spec_name());
        let c = choose|c: Rule| #[trigger] c.spec_name() == r.spec_name();
        assert(c == r);
    }
}

/// Every value is one its rule accepts.
pub open spec fn all_accepted(v: Seq<RuleValue>) -> bool {
    &&& v.len() == Rule::count()
    &&& forall|i: int| 0 <= i < v.len() ==> Rule::spec_at(i).spec_def().accepts(#[trigger] v[i])
}

/// After a value is set, reading the rule gives it back and every other rule
/// keeps its value.
pub proof fn lemma_set_then_get(values: Seq<RuleValue>, rule: Rule, v: RuleValue, other: Rule)
    requires
        well_kinded(values),
        rule.spec_def().accepts(v),
    ensures
        values.update(rule.spec_index() as int, v)[rule.spec_index() as int] == v,
        other != rule ==> values.update(rule.spec_index() as int, v)[other.spec_index() as int]
            == values[other.spec_index() as int],
{
    lemma_rule_positions();
    if other != rule {
        assert(Rule::spec_at(other.spec_index() as int) == other);
        assert(Rule::spec_at(rule.spec_index() as int) == rule);
    }
}

/// The entries `persisted_entries` writes for `values`, as names and values.
pub open spec fn persisted_view(values: Seq<RuleValue>) -> Seq<(Seq<char>, RuleValue)> {
    Seq::new(Rule::count(), |i: int| (Rule::spec_at(i).spec_name(), values[i]))
}

proof fn lemma_apply_persisted_prefix(values: Seq<RuleValue>, k: int)
    requires
        all_accepted(values),
        0 <= k <= Rule::count(),
    ensures
        apply_entries(default_values(), persisted_view(values).take(k)) == Seq::new(
            Rule::count(),
            |i: int| if i < k { values[i] } else { default_values()[i] },
        ),
    decreases k,
{
    let entries = persisted_view(values).take(k);
    if k == 0 {
        assert(Seq::new(Rule::count(), |i: int| if i < k { values[i] } else { default_values()[i] })
            =~= default_values());
    } else {
        lemma_apply_persisted_prefix(values, k - 1);
        assert(entries.drop_last() =~= persisted_view(values).take(k - 1));
        let r = Rule::spec_at(k - 1);
        lemma_rule_name_round_trip();
        lemma_rule_positions();
        assert(rule_named(r.spec_name()) == Some(r));
        assert(r.spec_index() == k - 1);
        assert(r.spec_def().accepts(values[k - 1]));
        assert(apply_entries(default_values(), entries) =~= Seq::new(
            Rule::count(),
            |i: int| if i < k { values[i] } else { default_values()[i] },
        ));
    }
}

/// Loading what was persisted gives back every value: the entries written
/// for a store whose values its rules accept restore that store exactly.
pub proof fn lemma_persist_then_load(values: Seq<RuleValue>)
    requires
        all_accepted(values),
    ensures
        apply_entries(default_values(), persisted_view(values)) == values,
{
    lemma_apply_persisted_prefix(values, Rule::count() as int);
    assert(persisted_view(values).take(Rule::count() as int) =~= persisted_view(values));
    assert(Seq::new(Rule::count(), |i: int| if i < Rule::count() { values[i] } else { default_values()[i] })
        =~= values);
}


/// The defaults are accepted by their rules.
proof fn lemma_defaults_accepted()
    ensures
        all_accepted(default_values()),
{
    lemma_catalog_consistent();
    assert forall|i: int| 0 <= i < Rule::count() implies Rule::spec_at(i).spec_def().accepts(
        #[trigger] default_values()[i],
    ) by {
        let r = Rule::spec_at(i);
        assert(r.spec_def().accepts(r.spec_def().default));
    }
}

/// Storing a value its rule accepts keeps every value accepted.
proof fn lemma_update_accepted(values: Seq<RuleValue>, rule: Rule, v: RuleValue)
    ensures
        all_accepted(values) && rule.spec_def().accepts(v) ==> all_accepted(
            values.update(rule.spec_index() as int, v),
        ),
{
    lemma_rule_positions();
    if all_accepted(values) && rule.spec_def().accepts(v) {
        let u = values.update(rule.spec_index() as int, v);
        assert forall|i: int| 0 <= i < u.len() implies Rule::spec_at(i).spec_def().accepts(#[trigger] u[i]) by {
            if i == rule.spec_index() {
                assert(Rule::spec_at(i) == rule);
            }
        }
    }
}

} // verus!
