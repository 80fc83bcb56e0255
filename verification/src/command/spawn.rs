//! `/spawn mobcaps` and `/spawn tracking`.

use vstd::prelude::*;
use crate::carpet::spawn_tracking::{SpawnTracker, report_lines};
use crate::carpet::counters::tally_map;
use crate::ranking::{names_distinct, ranked};
use crate::text::{decimal, i64_to_text, signed_decimal, u64_to_text};

use crate::command::tree::{CommandTree, Executor, NodeKind, is_node, literal};

verus! {

/// Display names of the spawning mob categories, by category id.
pub const CATEGORY_NAMES: [&'static str; 8] = [
    "monster",
    "creature",
    "ambient",
    "axolotls",
    "underground_water_creature",
    "water_creature",
    "water_ambient",
    "misc",
];

/// The first line of `/spawn mobcaps`.
pub open spec fn mobcaps_header_text(spawnable_chunks: i32) -> Seq<char> {
    "Mobcaps ("@ + signed_decimal(spawnable_chunks as int) + " spawnable chunks):"@
}

pub fn mobcaps_header(spawnable_chunks: i32) -> (s: String)
    ensures
        s@ == mobcaps_header_text(spawnable_chunks),
{
    let mut s = String::from_str("Mobcaps (");
    s.append(i64_to_text(spawnable_chunks as i64).as_str());
    s.append(" spawnable chunks):");
    s
}

/// One category line of `/spawn mobcaps`: the count, and the cap when the
/// category has one.
pub open spec fn mobcap_line_text(category: usize, count: i32, cap: Option<i32>) -> Seq<char> {
    "\n"@ + CATEGORY_NAMES@[category as int]@ + ": "@ + signed_decimal(count as int) + match cap {
        Some(c) => "/"@ + signed_decimal(c as int),
        None => Seq::empty(),
    }
}

pub fn mobcap_line(category: usize, count: i32, cap: Option<i32>) -> (s: String)
    requires
        category < 8,
    ensures
        s@ == mobcap_line_text(category, count, cap),
{
    let mut s = String::from_str("\n");
    s.append(CATEGORY_NAMES[category]);
    s.append(": ");
    s.append(i64_to_text(count as i64).as_str());
    match cap {
        Some(c) => {
            s.append("/");
            s.append(i64_to_text(c as i64).as_str());
        },
        None => {},
    }
    s
}

/// What `/spawn tracking` answers when it starts tracking.
pub open spec fn tracking_started_text() -> Seq<char> {
    "Started spawn tracking. Run /spawn tracking again to stop and report."@
}

/// `/spawn tracking` at time `now`: starts tracking, or stops it and answers
/// with the report, where `rate` is the spawn rate text of the report.
pub fn toggle_tracking(tracker: &mut SpawnTracker, now: i64, rate: &str) -> (message: String)
    requires
        old(tracker).wf(),
        i64::MIN <= now - old(tracker)@.2 <= i64::MAX,
    ensures
        final(tracker).wf(),
        !old(tracker)@.0 ==> final(tracker)@ == (true, 0u64, now, Map::<Seq<char>, u64>::empty())
            && message@ == tracking_started_text(),
        old(tracker)@.0 ==> final(tracker)@ == (false, old(tracker)@.1, old(tracker)@.2, old(tracker)@.3)
            && exists|all: Seq<(Seq<char>, u64)>|
            ranked(all) && names_distinct(all) && tally_map(all) == old(tracker)@.3 && message@
                == "Spawn tracking: "@ + decimal(old(tracker)@.1 as nat) + " spawns in "@ + signed_decimal(
                if now - old(tracker)@.2 >= 1 { now - old(tracker)@.2 } else { 1 },
            ) + "s ("@ + rate@ + "/s)"@ + report_lines(
                all.take(if all.len() < 10 { all.len() as int } else { 10 }),
            ),
{
    if tracker.toggle(now) {
        String::from_str("Started spawn tracking. Run /spawn tracking again to stop and report.")
    } else {
        tracker.report(now, rate)
    }
}


pub const NAMES: [&'static str; 1] = ["spawn"];

pub const DESCRIPTION: &'static str = "Spawn statistics for technical farms.";

/// `/spawn mobcaps` and `/spawn tracking`.
pub fn init_command_tree() -> (t: CommandTree)
    ensures
        t.names@ == NAMES@,
        t.description == DESCRIPTION,
        t.executor is None,
        t.children@.len() == 2,
        is_node(t.children@[0], "mobcaps"@, NodeKind::Literal, Some(Executor::SpawnMobCaps), 0),
        is_node(t.children@[1], "tracking"@, NodeKind::Literal, Some(Executor::SpawnTracking), 0),
{
    CommandTree::new(&NAMES, DESCRIPTION).followed_by(
        literal("mobcaps").execute(Executor::SpawnMobCaps),
    ).followed_by(literal("tracking").execute(Executor::SpawnTracking))
}

} // verus!
