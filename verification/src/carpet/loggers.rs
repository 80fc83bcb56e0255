//! Carpet-style `/log` subscriptions: repeating action-bar readouts.
//!
//! Two loggers exist: `tps` (server TPS/MSPT) and `mobcaps` (live mob cap
//! counts for the subscriber's world). Subscriptions are per player UUID and
//! update once per second.

use vstd::prelude::*;
use std::collections::HashSet;
use vstd::std_specs::hash::spec_hash_keys_iter;
use vstd::std_specs::iter::IteratorSpec;
use crate::text::{i64_to_text, signed_decimal};

verus! {

/// Update cadence in ticks (once per second).
pub const LOG_INTERVAL: u64 = 20;

#[derive(Clone, Copy, PartialEq, Eq, Debug, Structural)]
pub enum Logger {
    Tps,
    MobCaps,
}

/// The subscribers of each logger, by player UUID.
pub struct Subscriptions {
    tps: HashSet<u128>,
    mobcaps: HashSet<u128>,
}

/// No UUID occurs twice.
pub open spec fn unique_ids(s: Seq<u128>) -> bool {
    forall|i: int, j: int| 0 <= i < s.len() && 0 <= j < s.len() && i != j ==> s[i] != s[j]
}

impl View for Subscriptions {
    /// The subscribers of `tps` and of `mobcaps`.
    type V = (Set<u128>, Set<u128>);

    closed spec fn view(&self) -> (Set<u128>, Set<u128>) {
        (self.tps@, self.mobcaps@)
    }
}

/// The subscriber set of `logger`.
pub open spec fn subscribers_of(v: (Set<u128>, Set<u128>), logger: Logger) -> Set<u128> {
    match logger {
        Logger::Tps => v.0,
        Logger::MobCaps => v.1,
    }
}

/// The UUIDs of `set`, each once, in the set's iteration order.
fn collect_ids(set: &HashSet<u128>) -> (out: Vec<u128>)
    ensures
        unique_ids(out@),
        out@.to_set() == set@,
        out@.len() == set@.len(),
{
    let ghost rem = spec_hash_keys_iter(set).remaining();
    let mut out: Vec<u128> = Vec::new();
    for id in it: set.iter()
        invariant
            rem == spec_hash_keys_iter(set).remaining(),
            it.seq() == rem,
            out@ == rem.take(it.index() as int).map_values(|r: &u128| *r),
    {
        out.push(*id);
    }
    proof {
        assert(out@ =~= rem.unref());
        assert(rem.no_duplicates());
        assert forall|i: int, j: int| 0 <= i < out@.len() && 0 <= j < out@.len() && i != j implies out@[i]
            != out@[j] by {
            assert(out@[i] == *rem[i]);
            assert(out@[j] == *rem[j]);
        }
    }
    out
}

/// The set of the UUIDs of `ids`.
fn set_of(ids: &Vec<u128>) -> (s: HashSet<u128>)
    ensures
        s@ == ids@.to_set(),
{
    let mut s: HashSet<u128> = HashSet::new();
    let mut i: usize = 0;
    while i < ids.len()
        invariant
            i <= ids@.len(),
            s@ == ids@.take(i as int).to_set(),
        decreases ids@.len() - i,
    {
        s.insert(ids[i]);
        proof {
            let t0 = ids@.take(i as int);
            let t1 = ids@.take(i + 1);
            assert forall|x: u128| t1.to_set().contains(x) <==> t0.to_set().insert(ids@[i as int]).contains(x) by {
                if t1.contains(x) {
                    let k = choose|k: int| 0 <= k < t1.len() && t1[k] == x;
                    if k < i {
                        assert(t0[k] == x);
                    }
                }
                if t0.contains(x) {
                    let k = choose|k: int| 0 <= k < t0.len() && t0[k] == x;
                    assert(t1[k] == x);
                }
                if x == ids@[i as int] {
                    assert(t1[i as int] == x);
                }
            }
            assert(t1.to_set() =~= t0.to_set().insert(ids@[i as int]));
        }
        i = i + 1;
    }
    assert(ids@.take(ids@.len() as int) =~= ids@);
    s
}

impl Subscriptions {
    /// No subscriptions.
    pub fn new() -> (s: Self)
        ensures
            s@ == (Set::<u128>::empty(), Set::<u128>::empty()),
    {
        Subscriptions { tps: HashSet::new(), mobcaps: HashSet::new() }
    }

    /// The subscribers of `logger`, each once.
    pub fn subscribers(&self, logger: Logger) -> (out: Vec<u128>)
        ensures
            unique_ids(out@),
            out@.to_set() == subscribers_of(self@, logger),
    {
        match logger {
            Logger::Tps => collect_ids(&self.tps),
            Logger::MobCaps => collect_ids(&self.mobcaps),
        }
    }
}

/// `ids` with `player` added when absent and removed when present.
pub open spec fn toggled(ids: Set<u128>, player: u128) -> Set<u128> {
    if ids.contains(player) {
        ids.remove(player)
    } else {
        ids.insert(player)
    }
}

/// Toggling a logger twice for the same player restores its subscribers.
pub proof fn lemma_toggle_twice(ids: Set<u128>, player: u128)
    ensures
        toggled(toggled(ids, player), player) == ids,
{
    if ids.contains(player) {
        assert(toggled(toggled(ids, player), player) =~= ids);
    } else {
        assert(toggled(toggled(ids, player), player) =~= ids);
    }
}

/// Toggles a logger for `player`, returning the new state (true = subscribed).
pub fn toggle(subs: &mut Subscriptions, logger: Logger, player: u128) -> (subscribed: bool)
    ensures
        subscribed == !subscribers_of(old(subs)@, logger).contains(player),
        subscribers_of(final(subs)@, logger) == toggled(subscribers_of(old(subs)@, logger), player),
        logger == Logger::Tps ==> final(subs)@.1 == old(subs)@.1,
        logger == Logger::MobCaps ==> final(subs)@.0 == old(subs)@.0,
{
    let set = match logger {
        Logger::Tps => &mut subs.tps,
        Logger::MobCaps => &mut subs.mobcaps,
    };
    if set.remove(&player) {
        false
    } else {
        set.insert(player);
        true
    }
}

/// Clears every logger subscription of `player`.
pub fn clear(subs: &mut Subscriptions, player: u128)
    ensures
        final(subs)@ == (old(subs)@.0.remove(player), old(subs)@.1.remove(player)),
{
    subs.tps.remove(&player);
    subs.mobcaps.remove(&player);
}

/// Whether tick `tick_number` sends the readouts (once per second).
pub fn is_log_tick(tick_number: u64) -> (r: bool)
    ensures
        r == (tick_number % LOG_INTERVAL == 0),
{
    tick_number % LOG_INTERVAL == 0
}

/// The name a mob category is shown under, by category id.
pub fn logger_category_name(category_id: usize) -> (name: &'static str)
    ensures
        name@ == (if category_id == 0 {
            "monster"@
        } else if category_id == 1 {
            "creature"@
        } else if category_id == 2 {
            "ambient"@
        } else if category_id == 3 {
            "axolotls"@
        } else if category_id == 4 {
            "underground_water"@
        } else if category_id == 5 {
            "water_creature"@
        } else if category_id == 6 {
            "water_ambient"@
        } else {
            "misc"@
        }),
{
    match category_id {
        0 => "monster",
        1 => "creature",
        2 => "ambient",
        3 => "axolotls",
        4 => "underground_water",
        5 => "water_creature",
        6 => "water_ambient",
        _ => "misc",
    }
}

impl Logger {
    pub open spec fn spec_name(self) -> Seq<char> {
        match self {
            Logger::Tps => "tps"@,
            Logger::MobCaps => "mobcaps"@,
        }
    }

    /// The name `/log` uses for the logger.
    pub fn name(self) -> (s: &'static str)
        ensures
            s@ == self.spec_name(),
    {
        match self {
            Logger::Tps => "tps",
            Logger::MobCaps => "mobcaps",
        }
    }
}

/// Keeps the UUIDs of `ids` that occur in `online`.
fn retain_online(ids: &Vec<u128>, online: &Vec<u128>) -> (out: Vec<u128>)
    requires
        unique_ids(ids@),
    ensures
        unique_ids(out@),
        out@.to_set() == ids@.to_set().intersect(online@.to_set()),
{
    let mut out: Vec<u128> = Vec::new();
    let mut i: usize = 0;
    while i < ids.len()
        invariant
            unique_ids(ids@),
            i <= ids@.len(),
            unique_ids(out@),
            forall|x: u128| out@.contains(x) <==> (exists|j: int| 0 <= j < i && ids@[j] == x) && online@.contains(x),
        decreases ids@.len() - i,
    {
        let id = ids[i];
        let mut k: usize = 0;
        let mut found = false;
        while k < online.len()
            invariant
                k <= online@.len(),
                found <==> exists|j: int| 0 <= j < k && online@[j] == id,
            decreases online@.len() - k,
        {
            if online[k] == id {
                found = true;
            }
            k = k + 1;
        }
        let ghost before = out@;
        if found {
            assert(!before.contains(id)) by {
                if before.contains(id) {
                    let j = choose|j: int| 0 <= j < i && ids@[j] == id;
                    assert(ids@[j] == ids@[i as int]);
                }
            }
            out.push(id);
            assert forall|a: int, b: int| 0 <= a < out@.len() && 0 <= b < out@.len() && a != b implies out@[a] != out@[b] by {
                if a < before.len() && b < before.len() {
                } else if a < before.len() {
                    assert(before.contains(before[a]));
                } else if b < before.len() {
                    assert(before.contains(before[b]));
                }
            }
        }
        assert forall|x: u128| out@.contains(x) <==> (exists|j: int| 0 <= j < i + 1 && ids@[j] == x) && online@.contains(x) by {
            if out@.contains(x) && !before.contains(x) {
                assert(x == id);
                assert(ids@[i as int] == x);
                let j = choose|j: int| 0 <= j < online@.len() && online@[j] == id;
                assert(online@.contains(id));
            }
            if before.contains(x) {
                let m = choose|m: int| 0 <= m < before.len() && before[m] == x;
                assert(out@[m] == x);
            }
            if (exists|j: int| 0 <= j < i + 1 && ids@[j] == x) && online@.contains(x) {
                let j = choose|j: int| 0 <= j < i + 1 && ids@[j] == x;
                if j == i {
                    let m = choose|m: int| 0 <= m < online@.len() && online@[m] == x;
                    assert(found);
                    assert(out@[out@.len() - 1] == x);
                }
            }
        }
        i = i + 1;
    }
    assert(out@.to_set() =~= ids@.to_set().intersect(online@.to_set()));
    out
}

impl Subscriptions {
    /// Drops the subscriptions of players who are no longer online.
    pub fn prune_offline(&mut self, online: &Vec<u128>)
        ensures
            final(self)@ == (old(self)@.0.intersect(online@.to_set()), old(self)@.1.intersect(online@.to_set())),
    {
        let tps = set_of(&retain_online(&collect_ids(&self.tps), online));
        let mobcaps = set_of(&retain_online(&collect_ids(&self.mobcaps), online));
        self.tps = tps;
        self.mobcaps = mobcaps;
    }

    /// Every `(logger, subscriber)` pair to send a readout to: the `tps`
    /// subscribers first, then the `mobcaps` ones.
    pub fn targets(&self) -> (out: Vec<(Logger, u128)>)
        ensures
            forall|x: u128| #![auto] self@.0.contains(x) <==> out@.contains((Logger::Tps, x)),
            forall|x: u128| #![auto] self@.1.contains(x) <==> out@.contains((Logger::MobCaps, x)),
            out@.len() == self@.0.len() + self@.1.len(),
            forall|a: int, b: int| 0 <= a < b < out@.len() && (#[trigger] out@[b]).0 == Logger::Tps ==> (
            #[trigger] out@[a]).0 == Logger::Tps,
    {
        let tps = collect_ids(&self.tps);
        let mobcaps = collect_ids(&self.mobcaps);
        let mut out: Vec<(Logger, u128)> = Vec::new();
        let mut i: usize = 0;
        while i < tps.len()
            invariant
                i <= tps@.len(),
                out@.len() == i,
                forall|j: int| 0 <= j < i ==> out@[j] == (Logger::Tps, tps@[j]),
            decreases tps@.len() - i,
        {
            out.push((Logger::Tps, tps[i]));
            i = i + 1;
        }
        let n = out.len();
        let mut k: usize = 0;
        while k < mobcaps.len()
            invariant
                n == tps@.len(),
                k <= mobcaps@.len(),
                out@.len() == n + k,
                forall|j: int| 0 <= j < n ==> out@[j] == (Logger::Tps, tps@[j]),
                forall|j: int| 0 <= j < k ==> out@[n + j] == (Logger::MobCaps, mobcaps@[j]),
            decreases mobcaps@.len() - k,
        {
            out.push((Logger::MobCaps, mobcaps[k]));
            k = k + 1;
        }
        proof {
            assert forall|x: u128| #![auto] tps@.to_set().contains(x) <==> out@.contains((Logger::Tps, x)) by {
                if tps@.to_set().contains(x) {
                    let j = choose|j: int| 0 <= j < tps@.len() && tps@[j] == x;
                    assert(out@[j] == (Logger::Tps, x));
                }
                if out@.contains((Logger::Tps, x)) {
                    let j = choose|j: int| 0 <= j < out@.len() && out@[j] == (Logger::Tps, x);
                    if j >= n {
                        assert(out@[n + (j - n)] == (Logger::MobCaps, mobcaps@[j - n]));
                    } else {
                        assert(tps@[j] == x);
                    }
                }
            }
            assert forall|x: u128| #![auto] mobcaps@.to_set().contains(x) <==> out@.contains((Logger::MobCaps, x)) by {
                if mobcaps@.to_set().contains(x) {
                    let j = choose|j: int| 0 <= j < mobcaps@.len() && mobcaps@[j] == x;
                    assert(out@[n + j] == (Logger::MobCaps, x));
                }
                if out@.contains((Logger::MobCaps, x)) {
                    let j = choose|j: int| 0 <= j < out@.len() && out@[j] == (Logger::MobCaps, x);
                    if j < n {
                        assert(out@[j] == (Logger::Tps, tps@[j]));
                    } else {
                        assert(out@[n + (j - n)] == (Logger::MobCaps, mobcaps@[j - n]));
                    }
                }
            }
            lemma_unique_len(tps@);
            lemma_unique_len(mobcaps@);
            assert forall|a: int, b: int| 0 <= a < b < out@.len() && (#[trigger] out@[b]).0 == Logger::Tps implies (
            #[trigger] out@[a]).0 == Logger::Tps by {
                if b >= n {
                    assert(out@[n + (b - n)] == (Logger::MobCaps, mobcaps@[b - n]));
                }
                assert(a < n);
                assert(out@[a] == (Logger::Tps, tps@[a]));
            }
        }
        out
    }
}

proof fn lemma_unique_len(s: Seq<u128>)
    requires
        unique_ids(s),
    ensures
        s.to_set().len() == s.len(),
{
    assert(s.no_duplicates());
    s.unique_seq_to_set();
}

/// What `/log <logger>` answers.
pub open spec fn toggle_text(logger: Logger, enabled: bool) -> Seq<char> {
    "Logger "@ + logger.spec_name() + if enabled { " enabled"@ } else { " disabled"@ }
}

pub fn toggle_message(logger: Logger, enabled: bool) -> (s: String)
    ensures
        s@ == toggle_text(logger, enabled),
{
    let mut s = String::from_str("Logger ");
    s.append(logger.name());
    s.append(if enabled { " enabled" } else { " disabled" });
    s
}

/// One mob cap readout: `<category>: <count>/<cap>`.
pub open spec fn cap_text(category: Seq<char>, count: i32, cap: i32) -> Seq<char> {
    category + ": "@ + signed_decimal(count as int) + "/"@ + signed_decimal(cap as int)
}

/// The `mobcaps` readout: monsters and creatures with their caps.
pub open spec fn mobcaps_readout_text(monsters: (i32, i32), creatures: (i32, i32)) -> Seq<char> {
    "Mobcaps | "@ + cap_text("monster"@, monsters.0, monsters.1) + " | "@ + cap_text(
        "creature"@,
        creatures.0,
        creatures.1,
    )
}

pub fn mobcaps_readout(monsters: (i32, i32), creatures: (i32, i32)) -> (s: String)
    ensures
        s@ == mobcaps_readout_text(monsters, creatures),
{
    let mut s = String::from_str("Mobcaps | monster: ");
    s.append(i64_to_text(monsters.0 as i64).as_str());
    s.append("/");
    s.append(i64_to_text(monsters.1 as i64).as_str());
    s.append(" | creature: ");
    s.append(i64_to_text(creatures.0 as i64).as_str());
    s.append("/");
    s.append(i64_to_text(creatures.1 as i64).as_str());
    proof {
        reveal_strlit("Mobcaps | monster: ");
        reveal_strlit("Mobcaps | ");
        reveal_strlit("monster");
        reveal_strlit(": ");
        reveal_strlit(" | creature: ");
        reveal_strlit(" | ");
        reveal_strlit("creature");
    }
    assert(s@ =~= mobcaps_readout_text(monsters, creatures));
    s
}

} // verus!
