//! `/carpet`: lists, queries, changes and resets the carpet rules.

use vstd::prelude::*;
use crate::carpet::registry::{
    CarpetRules, Rule, RuleCategory, RuleValue, ValueKind, rule_named, well_kinded,
};
use crate::float_bits::{f64_is_finite, is_finite_bits};
use crate::text::{decimal, parse_i64, parse_i64_spec, str_eq, u64_to_text};

use crate::command::tree::{ArgumentType, CommandTree, Executor, NodeKind, argument, child, is_node, literal};

verus! {

/// What `raw` means as a value of `kind`, where `parsed_float` is the outcome
/// of `raw.parse::<f64>()` as a bit pattern (`None` when that parse fails).
pub open spec fn parse_value_spec(kind: ValueKind, raw: Seq<char>, parsed_float: Option<u64>) -> Result<RuleValue, Seq<char>> {
    match kind {
        ValueKind::Bool => if raw == "true"@ {
            Ok(RuleValue::Bool(true))
        } else if raw == "false"@ {
            Ok(RuleValue::Bool(false))
        } else {
            Err("expected true or false, got "@ + raw)
        },
        ValueKind::Int => match parse_i64_spec(raw) {
            Some(v) => Ok(RuleValue::Int(v)),
            None => Err("expected an integer, got "@ + raw),
        },
        ValueKind::Float => match parsed_float {
            None => Err("expected a number, got "@ + raw),
            Some(b) => if f64_is_finite(b) {
                Ok(RuleValue::Float(b))
            } else {
                Err("expected a finite number, got "@ + raw)
            },
        },
    }
}

/// A `Bool` rule takes exactly the words `true` and `false`, each as the value
/// it names; every other text is refused. A `Float` rule takes any finite
/// number that the float parse produced.
pub proof fn lemma_rule_value_words(raw: Seq<char>, parsed_float: Option<u64>, b: bool)
    ensures
        parse_value_spec(ValueKind::Bool, raw, parsed_float) == Ok::<RuleValue, Seq<char>>(RuleValue::Bool(b))
            <==> raw == (if b { "true"@ } else { "false"@ }),
        parse_value_spec(ValueKind::Bool, raw, parsed_float) is Err <==> (raw != "true"@ && raw != "false"@),
        parse_value_spec(ValueKind::Bool, raw, parsed_float) matches Ok(v) ==> v is Bool,
        parsed_float matches Some(bits) ==> (f64_is_finite(bits) ==> parse_value_spec(
            ValueKind::Float,
            raw,
            parsed_float,
        ) == Ok::<RuleValue, Seq<char>>(RuleValue::Float(bits))),
{
    reveal_strlit("true");
    reveal_strlit("false");
}

/// Whether a parse result and its specification agree.
pub open spec fn value_result_is(r: Result<RuleValue, String>, s: Result<RuleValue, Seq<char>>) -> bool {
    match (r, s) {
        (Ok(a), Ok(b)) => a == b,
        (Err(m), Err(n)) => m@ == n,
        _ => false,
    }
}

fn message_with(prefix: &str, raw: &str) -> (s: String)
    ensures
        s@ == prefix@ + raw@,
{
    let mut s = String::from_str(prefix);
    s.append(raw);
    s
}

/// Parses user input into a value of the expected kind. A `Float` takes
/// `parsed_float`, the bit pattern `raw.parse::<f64>()` gave, when finite.
pub fn parse_value(kind: ValueKind, raw: &str, parsed_float: Option<u64>) -> (r: Result<RuleValue, String>)
    ensures
        value_result_is(r, parse_value_spec(kind, raw@, parsed_float)),
{
    match kind {
        ValueKind::Bool => if str_eq(raw, "true") {
            Ok(RuleValue::Bool(true))
        } else if str_eq(raw, "false") {
            Ok(RuleValue::Bool(false))
        } else {
            Err(message_with("expected true or false, got ", raw))
        },
        ValueKind::Int => match parse_i64(raw) {
            Some(v) => Ok(RuleValue::Int(v)),
            None => Err(message_with("expected an integer, got ", raw)),
        },
        ValueKind::Float => match parsed_float {
            None => Err(message_with("expected a number, got ", raw)),
            Some(b) => if is_finite_bits(b) {
                Ok(RuleValue::Float(b))
            } else {
                Err(message_with("expected a finite number, got ", raw))
            },
        },
    }
}

/// The category named `raw`, or the message that no category has that name.
pub fn parse_category(raw: &str) -> (r: Result<RuleCategory, String>)
    ensures
        r matches Ok(c) ==> c.spec_name() == raw@,
        r matches Err(m) ==> (forall|c: RuleCategory| c.spec_name() != raw@) && m@
            == "Unknown carpet rule category: "@ + raw@,
        r is Err <==> (forall|c: RuleCategory| c.spec_name() != raw@),
{
    match RuleCategory::from_name(raw) {
        Some(c) => Ok(c),
        None => Err(message_with("Unknown carpet rule category: ", raw)),
    }
}

/// The rules `/carpet list` shows for `category` (all when `None`), in
/// catalog order, each with its value when that differs from the default.
pub open spec fn listing(values: Seq<RuleValue>, category: Option<RuleCategory>, n: int) -> Seq<(Rule, Option<RuleValue>)>
    decreases n,
{
    if n <= 0 {
        Seq::empty()
    } else {
        let rule = Rule::spec_at(n - 1);
        let def = rule.spec_def();
        let shown = match category {
            Some(c) => def.category == c,
            None => true,
        };
        listing(values, category, n - 1) + if shown {
            seq![(rule, if values[n - 1].same(def.default) { None } else { Some(values[n - 1]) })]
        } else {
            Seq::empty()
        }
    }
}

/// `/carpet list [category]`: the listed rules with their changed values;
/// the text of a value is written by the caller.
pub fn list_rules(rules: &CarpetRules, category: Option<RuleCategory>) -> (out: Vec<(Rule, Option<RuleValue>)>)
    requires
        well_kinded(rules@),
    ensures
        out@ == listing(rules@, category, Rule::count() as int),
{
    let mut out: Vec<(Rule, Option<RuleValue>)> = Vec::new();
    let mut i: usize = 0;
    while i < 26
        invariant
            well_kinded(rules@),
            i <= 26,
            out@ == listing(rules@, category, i as int),
        decreases 26 - i,
    {
        match Rule::from_index(i) {
            Some(rule) => {
                proof {
                    crate::carpet::registry::lemma_rule_positions();
                }
                let def = rule.def();
                let shown = match category {
                    Some(c) => def.category == c,
                    None => true,
                };
                if shown {
                    let value = rules.get(rule);
                    let changed = if value == def.default {
                        None
                    } else {
                        Some(value)
                    };
                    out.push((rule, changed));
                }
            },
            None => {},
        }
        i = i + 1;
    }
    out
}

/// How many of the first `n` rules differ from their default.
pub open spec fn changed_count(values: Seq<RuleValue>, n: int) -> int
    decreases n,
{
    if n <= 0 {
        0
    } else {
        changed_count(values, n - 1) + if values[n - 1].same(Rule::spec_at(n - 1).spec_def().default) {
            0int
        } else {
            1int
        }
    }
}

/// The number of rules whose value differs from the default.
pub fn changed_rules(rules: &CarpetRules) -> (n: usize)
    requires
        well_kinded(rules@),
    ensures
        n == changed_count(rules@, Rule::count() as int),
        n <= Rule::count(),
{
    let mut n: usize = 0;
    let mut i: usize = 0;
    while i < 26
        invariant
            well_kinded(rules@),
            i <= 26,
            n == changed_count(rules@, i as int),
            n <= i,
        decreases 26 - i,
    {
        match Rule::from_index(i) {
            Some(rule) => {
                proof {
                    crate::carpet::registry::lemma_rule_positions();
                }
                if !(rules.get(rule) == rule.def().default) {
                    n = n + 1;
                }
            },
            None => {},
        }
        i = i + 1;
    }
    n
}

/// `/carpet` without arguments: how many rules exist and how many changed.
pub open spec fn root_text(changed: nat) -> Seq<char> {
    "26 carpet rules available, "@ + decimal(changed)
        + " changed from default. Use /carpet list [category], /carpet <rule> [value] or /carpet default <rule>."@
}

pub fn root_message(changed: usize) -> (s: String)
    ensures
        s@ == root_text(changed as nat),
{
    let mut s = String::from_str("26 carpet rules available, ");
    let c = u64_to_text(changed as u64);
    s.append(c.as_str());
    s.append(
        " changed from default. Use /carpet list [category], /carpet <rule> [value] or /carpet default <rule>.",
    );
    s
}

/// `/carpet <rule> <value>`: parses `raw` for the rule's kind and applies it.
/// A refusal is answered with `Failed to set <rule>: <reason>` and changes
/// nothing.
pub fn set_rule(rules: &mut CarpetRules, rule: Rule, raw: &str, parsed_float: Option<u64>) -> (r: Result<(), String>)
    requires
        well_kinded(old(rules)@),
    ensures
        well_kinded(final(rules)@),
        match parse_value_spec(rule.spec_def().kind, raw@, parsed_float) {
            Err(reason) => final(rules)@ == old(rules)@ && (r matches Err(m) && m@ == "Failed to set "@
                + rule.spec_name() + ": "@ + reason),
            Ok(v) => if rule.spec_def().accepts(v) {
                r is Ok && final(rules)@ == old(rules)@.update(rule.spec_index() as int, v)
            } else {
                final(rules)@ == old(rules)@ && (r matches Err(m) && m@ == "Failed to set "@
                    + rule.spec_name() + ": "@ + rule.spec_def().rejection(v))
            },
        },
{
    let def = rule.def();
    let outcome = match parse_value(def.kind, raw, parsed_float) {
        Ok(value) => rules.set(rule, value),
        Err(reason) => Err(reason),
    };
    match outcome {
        Ok(()) => Ok(()),
        Err(reason) => {
            let mut m = String::from_str("Failed to set ");
            m.append(def.name);
            m.append(": ");
            m.append(reason.as_str());
            Err(m)
        },
    }
}

/// `/carpet default <rule>`: resets the rule named `name`, or answers that no
/// rule has that name.
pub fn reset_rule(rules: &mut CarpetRules, name: &str) -> (r: Result<Rule, String>)
    requires
        well_kinded(old(rules)@),
    ensures
        well_kinded(final(rules)@),
        r matches Ok(rule) ==> rule_named(name@) == Some(rule) && final(rules)@ == old(rules)@.update(
            rule.spec_index() as int,
            rule.spec_def().default,
        ),
        r matches Err(m) ==> rule_named(name@) is None && final(rules)@ == old(rules)@ && m@
            == "Unknown rule: "@ + name@,
        r is Ok <==> rule_named(name@) is Some,
{
    match Rule::from_name(name) {
        Some(rule) => {
            rules.reset(rule);
            Ok(rule)
        },
        None => Err(message_with("Unknown rule: ", name)),
    }
}


pub const NAMES: [&'static str; 2] = ["carpet", "vgcarpet"];

pub const DESCRIPTION: &'static str = "Manages VerdantGolem carpet rules.";

/// The argument type of a rule's value: `true`/`false` for boolean rules,
/// one word otherwise.
pub open spec fn value_argument(kind: ValueKind) -> ArgumentType {
    match kind {
        ValueKind::Bool => ArgumentType::Bool,
        _ => ArgumentType::Simple,
    }
}

/// `/carpet`, `/carpet list [category]`, `/carpet default <rule>`, and
/// `/carpet <rule> [value]` for every rule in catalog order.
pub fn init_command_tree() -> (t: CommandTree)
    ensures
        t.names@ == NAMES@,
        t.description == DESCRIPTION,
        t.executor == Some(Executor::CarpetRoot),
        t.children@.len() == 28,
        is_node(t.children@[0], "list"@, NodeKind::Literal, Some(Executor::CarpetList), 1),
        is_node(
            child(t.children@[0], 0),
            "category"@,
            NodeKind::Argument(ArgumentType::Simple),
            Some(Executor::CarpetList),
            0,
        ),
        is_node(t.children@[1], "default"@, NodeKind::Literal, None, 1),
        is_node(
            child(t.children@[1], 0),
            "rule"@,
            NodeKind::Argument(ArgumentType::Simple),
            Some(Executor::CarpetDefault),
            0,
        ),
        forall|i: int|
            0 <= i < 26 ==> is_node(
                #[trigger] t.children@[i + 2],
                Rule::spec_at(i).spec_name(),
                NodeKind::Literal,
                Some(Executor::CarpetQuery(Rule::spec_at(i))),
                1,
            ) && is_node(
                child(t.children@[i + 2], 0),
                "value"@,
                NodeKind::Argument(value_argument(Rule::spec_at(i).spec_def().kind)),
                Some(Executor::CarpetSet(Rule::spec_at(i))),
                0,
            ),
{
    let mut tree = CommandTree::new(&NAMES, DESCRIPTION).execute(Executor::CarpetRoot).followed_by(
        literal("list").execute(Executor::CarpetList).followed_by(
            argument("category", ArgumentType::Simple).execute(Executor::CarpetList),
        ),
    ).followed_by(
        literal("default").followed_by(
            argument("rule", ArgumentType::Simple).execute(Executor::CarpetDefault),
        ),
    );
    let ghost head = tree.children@;
    let mut i: usize = 0;
    while i < 26
        invariant
            i <= 26,
            tree.names@ == NAMES@,
            tree.description == DESCRIPTION,
            tree.executor == Some(Executor::CarpetRoot),
            tree.children@.len() == i + 2,
            tree.children@[0] == head[0],
            tree.children@[1] == head[1],
            forall|j: int|
                0 <= j < i ==> is_node(
                    #[trigger] tree.children@[j + 2],
                    Rule::spec_at(j).spec_name(),
                    NodeKind::Literal,
                    Some(Executor::CarpetQuery(Rule::spec_at(j))),
                    1,
                ) && is_node(
                    child(tree.children@[j + 2], 0),
                    "value"@,
                    NodeKind::Argument(value_argument(Rule::spec_at(j).spec_def().kind)),
                    Some(Executor::CarpetSet(Rule::spec_at(j))),
                    0,
                ),
        decreases 26 - i,
    {
        match Rule::from_index(i) {
            Some(rule) => {
                let def = rule.def();
                let value_type = match def.kind {
                    ValueKind::Bool => ArgumentType::Bool,
                    _ => ArgumentType::Simple,
                };
                let node = literal(def.name).execute(Executor::CarpetQuery(rule)).followed_by(
                    argument("value", value_type).execute(Executor::CarpetSet(rule)),
                );
                let ghost before = tree.children@;
                tree = tree.followed_by(node);
                assert forall|j: int| 0 <= j < i + 1 implies is_node(
                    #[trigger] tree.children@[j + 2],
                    Rule::spec_at(j).spec_name(),
                    NodeKind::Literal,
                    Some(Executor::CarpetQuery(Rule::spec_at(j))),
                    1,
                ) && is_node(
                    child(tree.children@[j + 2], 0),
                    "value"@,
                    NodeKind::Argument(value_argument(Rule::spec_at(j).spec_def().kind)),
                    Some(Executor::CarpetSet(Rule::spec_at(j))),
                    0,
                ) by {
                    if j < i {
                        assert(tree.children@[j + 2] == before[j + 2]);
                    }
                }
            },
            None => {},
        }
        i = i + 1;
    }
    tree
}

} // verus!
