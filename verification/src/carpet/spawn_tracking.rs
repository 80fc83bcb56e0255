//! `/spawn tracking`: samples natural mob spawns while active (carpet-style).
//!
//! Recording hooks into the natural spawner's successful spawn path; the report
//! shows duration, totals, per-type counts and spawns per second.

use vstd::prelude::*;
use crate::carpet::counters::{tally_add, tally_map};
use crate::ranking::{names_distinct, rank_tallies, ranked, tally_view};
use crate::text::{decimal, i64_to_text, signed_decimal, u64_to_text};

verus! {

/// Spawn tracking state: whether it runs, the total, when it started (Unix
/// seconds) and the count per entity type.
pub struct SpawnTracker {
    active: bool,
    total: u64,
    started_at: i64,
    counts: Vec<(String, u64)>,
}

impl View for SpawnTracker {
    /// `(active, total, started_at, counts)`.
    type V = (bool, u64, i64, Map<Seq<char>, u64>);

    closed spec fn view(&self) -> (bool, u64, i64, Map<Seq<char>, u64>) {
        (self.active, self.total, self.started_at, tally_map(tally_view(self.counts@)))
    }
}

/// The report lines for ranked entries: `name: count` and a line break each.
pub open spec fn report_lines(entries: Seq<(Seq<char>, u64)>) -> Seq<char>
    decreases entries.len(),
{
    if entries.len() == 0 {
        Seq::empty()
    } else {
        report_lines(entries.drop_last()) + entries.last().0 + ": "@ + decimal(entries.last().1 as nat)
            + "\n"@
    }
}

impl SpawnTracker {
    /// No entity type counted twice.
    pub closed spec fn wf(self) -> bool {
        names_distinct(tally_view(self.counts@))
    }

    /// Tracking off, nothing counted.
    pub fn new() -> (t: Self)
        ensures
            t.wf(),
            t@ == (false, 0u64, 0i64, Map::<Seq<char>, u64>::empty()),
    {
        let t = SpawnTracker { active: false, total: 0, started_at: 0, counts: Vec::new() };
        assert(tally_view(t.counts@) =~= Seq::<(Seq<char>, u64)>::empty());
        t
    }

    /// Records one naturally spawned entity of type `entity_key`; no-op unless
    /// tracking is active. The total wraps as an atomic counter does.
    pub fn record(&mut self, entity_key: &str)
        requires
            old(self).wf(),
            old(self)@.0 && old(self)@.3.contains_key(entity_key@) ==> old(self)@.3[entity_key@] < u64::MAX,
        ensures
            final(self).wf(),
            !old(self)@.0 ==> final(self)@ == old(self)@,
            old(self)@.0 ==> final(self)@ == (
                true,
                (if old(self)@.1 == u64::MAX { 0 } else { old(self)@.1 + 1 }) as u64,
                old(self)@.2,
                old(self)@.3.insert(
                    entity_key@,
                    if old(self)@.3.contains_key(entity_key@) {
                        (old(self)@.3[entity_key@] + 1) as u64
                    } else {
                        1u64
                    },
                ),
            ),
    {
        if !self.active {
            return;
        }
        self.total = self.total.wrapping_add(1);
        tally_add(&mut self.counts, entity_key, 1);
    }

    /// Toggles tracking at time `now`; starting resets previous samples.
    /// Returns `true` when tracking is now active.
    pub fn toggle(&mut self, now: i64) -> (started: bool)
        requires
            old(self).wf(),
        ensures
            final(self).wf(),
            started == !old(self)@.0,
            old(self)@.0 ==> final(self)@ == (false, old(self)@.1, old(self)@.2, old(self)@.3),
            !old(self)@.0 ==> final(self)@ == (true, 0u64, now, Map::<Seq<char>, u64>::empty()),
    {
        if self.active {
            self.active = false;
            return false;
        }
        self.total = 0;
        self.counts = Vec::new();
        self.started_at = now;
        self.active = true;
        assert(tally_view(self.counts@) =~= Seq::<(Seq<char>, u64)>::empty());
        true
    }

    /// The count of `entity_key`, 0 when it was not recorded.
    pub fn count(&self, entity_key: &str) -> (n: u64)
        requires
            self.wf(),
        ensures
            n == if self@.3.contains_key(entity_key@) { self@.3[entity_key@] } else { 0 },
    {
        let ghost s = tally_view(self.counts@);
        proof {
            crate::carpet::counters::lemma_tally_map_pairs(s);
        }
        let mut i: usize = 0;
        while i < self.counts.len()
            invariant
                s == tally_view(self.counts@),
                names_distinct(s),
                i <= s.len(),
                forall|j: int| 0 <= j < i ==> (#[trigger] s[j]).0 != entity_key@,
            decreases s.len() - i,
        {
            assert(s[i as int] == (self.counts@[i as int].0@, self.counts@[i as int].1));
            if crate::text::str_eq(self.counts[i].0.as_str(), entity_key) {
                proof {
                    crate::carpet::counters::lemma_tally_map_pairs(s);
                    assert(s.contains(s[i as int]));
                }
                return self.counts[i].1;
            }
            i = i + 1;
        }
        proof {
            crate::carpet::counters::lemma_tally_map_pairs(s);
        }
        0
    }

    /// Whether tracking is currently running.
    pub fn is_active(&self) -> (r: bool)
        ensures
            r == self@.0,
    {
        self.active
    }

    /// Total spawns recorded since tracking last started.
    pub fn total(&self) -> (r: u64)
        ensures
            r == self@.1,
    {
        self.total
    }

    /// Seconds since tracking started at time `now`, at least one.
    pub fn elapsed_seconds(&self, now: i64) -> (r: i64)
        requires
            i64::MIN <= now - self@.2 <= i64::MAX,
        ensures
            r == if now - self@.2 >= 1 { now - self@.2 } else { 1 },
    {
        let elapsed = now - self.started_at;
        if elapsed >= 1 { elapsed } else { 1 }
    }

    /// The ten most frequent entity types (all, when fewer), most frequent
    /// first, equal counts by name.
    pub fn top_entries(&self) -> (out: Vec<(String, u64)>)
        requires
            self.wf(),
        ensures
            exists|all: Seq<(Seq<char>, u64)>|
                ranked(all) && names_distinct(all) && tally_map(all) == self@.3 && tally_view(out@)
                    == all.take(if all.len() < 10 { all.len() as int } else { 10 }),
    {
        let mut copy: Vec<(String, u64)> = Vec::new();
        let ghost s = tally_view(self.counts@);
        let mut i: usize = 0;
        while i < self.counts.len()
            invariant
                s == tally_view(self.counts@),
                i <= self.counts@.len(),
                copy@.len() == i,
                tally_view(copy@) == s.take(i as int),
            decreases self.counts@.len() - i,
        {
            let key = self.counts[i].0.clone();
            let ghost prev = copy@;
            copy.push((key, self.counts[i].1));
            proof {
                assert(copy@ == prev.push(copy@[i as int]));
                assert(tally_view(copy@) =~= s.take(i + 1));
            }
            i = i + 1;
        }
        assert(s.take(self.counts@.len() as int) =~= s);
        let mut all = rank_tallies(copy);
        proof {
            crate::carpet::counters::lemma_tally_map_permutation(tally_view(all@), s);
        }
        let ghost full = tally_view(all@);
        let keep: usize = if all.len() < 10 { all.len() } else { 10 };
        all.truncate(keep);
        assert(tally_view(all@) =~= full.take(keep as int));
        all
    }

    /// The per-type lines of the report: `name: count` and a line break for
    /// each of the ten most frequent types.
    pub fn report_entries(&self) -> (text: String)
        requires
            self.wf(),
        ensures
            exists|all: Seq<(Seq<char>, u64)>|
                ranked(all) && names_distinct(all) && tally_map(all) == self@.3 && text@ == report_lines(
                    all.take(if all.len() < 10 { all.len() as int } else { 10 }),
                ),
    {
        let top = self.top_entries();
        let mut text = String::new();
        let mut i: usize = 0;
        proof {
            reveal_strlit(": ");
            reveal_strlit("\n");
        }
        while i < top.len()
            invariant
                i <= top@.len(),
                text@ == report_lines(tally_view(top@).take(i as int)),
            decreases top@.len() - i,
        {
            let ghost prev = tally_view(top@).take(i as int);
            let line = text.concat(top[i].0.as_str()).concat(": ").concat(
                u64_to_text(top[i].1).as_str(),
            ).concat("\n");
            text = line;
            assert(tally_view(top@).take(i + 1).drop_last() =~= prev);
            i = i + 1;
        }
        assert(tally_view(top@).take(top@.len() as int) =~= tally_view(top@));
        text
    }

    /// The report at time `now`: `Spawn tracking: <total> spawns in
    /// <elapsed>s (<rate>/s)`, directly followed by the per-type lines.
    /// `rate` is the text of total spawns per elapsed second with one decimal.
    pub fn report(&self, now: i64, rate: &str) -> (text: String)
        requires
            self.wf(),
            i64::MIN <= now - self@.2 <= i64::MAX,
        ensures
            exists|all: Seq<(Seq<char>, u64)>|
                ranked(all) && names_distinct(all) && tally_map(all) == self@.3 && text@ == "Spawn tracking: "@
                    + decimal(self@.1 as nat) + " spawns in "@ + signed_decimal(
                    if now - self@.2 >= 1 { now - self@.2 } else { 1 },
                ) + "s ("@ + rate@ + "/s)"@ + report_lines(
                    all.take(if all.len() < 10 { all.len() as int } else { 10 }),
                ),
    {
        let elapsed = self.elapsed_seconds(now);
        let mut text = String::from_str("Spawn tracking: ");
        let t = u64_to_text(self.total);
        text.append(t.as_str());
        text.append(" spawns in ");
        let e = i64_to_text(elapsed);
        text.append(e.as_str());
        text.append("s (");
        text.append(rate);
        text.append("/s)");
        let lines = self.report_entries();
        text.append(lines.as_str());
        text
    }
}

} // verus!
