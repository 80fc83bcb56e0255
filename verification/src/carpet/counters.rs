//! Sixteen-channel hopper counters, one per dye color (carpet `hopperCounters`).
//!
//! When the `hopperCounters` rule is enabled, a hopper that transfers items into
//! a wool block destroys the items and counts them on the channel matching the
//! wool's dye color. Counters live in memory only.

use vstd::prelude::*;
use crate::ranking::{names_distinct, rank_tallies, ranked, tally_view};
use crate::text::{parse_unsigned, parse_usize, str_eq};

verus! {

/// The 16 channel names, in dye-color order.
pub const CHANNEL_NAMES: [&'static str; 16] = [
    "white",
    "orange",
    "magenta",
    "light_blue",
    "yellow",
    "lime",
    "pink",
    "gray",
    "light_gray",
    "cyan",
    "purple",
    "blue",
    "brown",
    "green",
    "red",
    "black",
];

/// The name of channel `i`.
pub open spec fn channel_name(i: int) -> Seq<char> {
    CHANNEL_NAMES@[i]@
}

/// The channel that `name` selects: a channel name, or `#` followed by an
/// index as `usize` parses it (the index is not checked against the count).
pub open spec fn channel_named(name: Seq<char>) -> Option<int> {
    if exists|i: int| 0 <= i < 16 && #[trigger] channel_name(i) == name {
        Some(choose|i: int| 0 <= i < 16 && #[trigger] channel_name(i) == name)
    } else if name.len() > 0 && name[0] == '#' {
        parse_unsigned(name.skip(1), usize::MAX as int)
    } else {
        None
    }
}

/// The tallies of a channel as a map from item key to count.
pub open spec fn tally_map(s: Seq<(Seq<char>, u64)>) -> Map<Seq<char>, u64>
    decreases s.len(),
{
    if s.len() == 0 {
        Map::empty()
    } else {
        tally_map(s.drop_last()).insert(s.last().0, s.last().1)
    }
}

/// The sum of all counts of a channel.
pub open spec fn tally_sum(s: Seq<(Seq<char>, u64)>) -> int
    decreases s.len(),
{
    if s.len() == 0 {
        0
    } else {
        tally_sum(s.drop_last()) + s.last().1
    }
}

/// With distinct names, an item maps to a count exactly when the pair occurs.
pub proof fn lemma_tally_map_pairs(s: Seq<(Seq<char>, u64)>)
    requires
        names_distinct(s),
    ensures
        forall|k: Seq<char>, v: u64| #![trigger tally_map(s)[k], s.contains((k, v))]
            (tally_map(s).contains_key(k) && tally_map(s)[k] == v) <==> s.contains((k, v)),
        forall|k: Seq<char>| tally_map(s).contains_key(k) <==> exists|i: int| 0 <= i < s.len() && (#[trigger] s[i]).0 == k,
    decreases s.len(),
{
    if s.len() > 0 {
        let t = s.drop_last();
        assert(names_distinct(t)) by {
            assert forall|i: int, j: int| 0 <= i < t.len() && 0 <= j < t.len() && i != j implies (#[trigger] t[i]).0 != (#[trigger] t[j]).0 by {
                assert(t[i] == s[i]);
                assert(t[j] == s[j]);
            }
        }
        lemma_tally_map_pairs(t);
        let last = s.last();
        assert forall|k: Seq<char>, v: u64| #![trigger tally_map(s)[k], s.contains((k, v))]
            (tally_map(s).contains_key(k) && tally_map(s)[k] == v) <==> s.contains((k, v)) by {
            if k == last.0 {
                if v == last.1 {
                    assert(s[s.len() - 1] == (k, v));
                }
                if s.contains((k, v)) {
                    let i = choose|i: int| 0 <= i < s.len() && s[i] == (k, v);
                    if i < s.len() - 1 {
                        assert(s[i].0 == s[s.len() - 1].0);
                    }
                }
            } else {
                assert(tally_map(s).contains_key(k) == tally_map(t).contains_key(k));
                assert(tally_map(t).contains_key(k) ==> tally_map(s)[k] == tally_map(t)[k]);
                assert((tally_map(t).contains_key(k) && tally_map(t)[k] == v) <==> t.contains((k, v)));
                if s.contains((k, v)) {
                    let i = choose|i: int| 0 <= i < s.len() && s[i] == (k, v);
                    assert(t[i] == s[i]);
                    assert(t.contains((k, v)));
                }
                if t.contains((k, v)) {
                    let i = choose|i: int| 0 <= i < t.len() && t[i] == (k, v);
                    assert(s[i] == t[i]);
                }
            }
        }
        assert forall|k: Seq<char>| tally_map(s).contains_key(k) <==> exists|i: int| 0 <= i < s.len() && (#[trigger] s[i]).0 == k by {
            if k == last.0 {
                assert(s[s.len() - 1].0 == k);
            }
            if k != last.0 && tally_map(s).contains_key(k) {
                assert(tally_map(t).contains_key(k));
                let i = choose|i: int| 0 <= i < t.len() && (#[trigger] t[i]).0 == k;
                assert(s[i] == t[i]);
            }
            if exists|i: int| 0 <= i < s.len() && (#[trigger] s[i]).0 == k {
                let i = choose|i: int| 0 <= i < s.len() && (#[trigger] s[i]).0 == k;
                if i < s.len() - 1 {
                    assert(t[i] == s[i]);
                    assert(tally_map(t).contains_key(k));
                }
            }
        }
    }
}

/// Replacing the count at one position updates the map and the sum.
pub proof fn lemma_tally_update(s: Seq<(Seq<char>, u64)>, i: int, v: u64)
    requires
        names_distinct(s),
        0 <= i < s.len(),
    ensures
        tally_map(s.update(i, (s[i].0, v))) == tally_map(s).insert(s[i].0, v),
        tally_sum(s.update(i, (s[i].0, v))) == tally_sum(s) - s[i].1 + v,
        names_distinct(s.update(i, (s[i].0, v))),
    decreases s.len(),
{
    let u = s.update(i, (s[i].0, v));
    let t = s.drop_last();
    assert(names_distinct(t)) by {
        assert forall|a: int, b: int| 0 <= a < t.len() && 0 <= b < t.len() && a != b implies (#[trigger] t[a]).0 != (#[trigger] t[b]).0 by {
            assert(t[a] == s[a]);
            assert(t[b] == s[b]);
        }
    }
    if i == s.len() - 1 {
        assert(u.drop_last() =~= t);
        assert(tally_map(u) =~= tally_map(s).insert(s[i].0, v));
    } else {
        lemma_tally_update(t, i, v);
        assert(u.drop_last() =~= t.update(i, (s[i].0, v)));
        assert(s[i].0 != s.last().0);
        assert(tally_map(u) =~= tally_map(s).insert(s[i].0, v));
    }
    assert forall|a: int, b: int| 0 <= a < u.len() && 0 <= b < u.len() && a != b implies (#[trigger] u[a]).0 != (#[trigger] u[b]).0 by {
    }
}

/// Sixteen counter channels, each tallying item keys.
pub struct HopperCounters {
    channels: Vec<Vec<(String, u64)>>,
}

impl HopperCounters {
    /// The tallies of channel `ch`, in the order items were first counted.
    pub closed spec fn tallies(self, ch: int) -> Seq<(Seq<char>, u64)> {
        tally_view(self.channels@[ch]@)
    }

    /// Sixteen channels, none naming an item twice.
    pub closed spec fn wf(self) -> bool {
        &&& self.channels@.len() == 16
        &&& forall|ch: int| 0 <= ch < 16 ==> names_distinct(#[trigger] self.tallies(ch))
    }

    /// The total count of channel `ch`.
    pub closed spec fn channel_total(self, ch: int) -> int {
        tally_sum(self.tallies(ch))
    }
}

impl View for HopperCounters {
    type V = Seq<Map<Seq<char>, u64>>;

    closed spec fn view(&self) -> Seq<Map<Seq<char>, u64>> {
        Seq::new(16, |ch: int| tally_map(self.tallies(ch)))
    }
}

impl HopperCounters {
    /// The counters always show sixteen channels.
    pub proof fn lemma_channel_count(self)
        ensures
            self@.len() == 16,
    {
    }

    /// Sixteen empty channels.
    pub fn new() -> (c: Self)
        ensures
            c.wf(),
            c@.len() == 16,
            forall|ch: int| 0 <= ch < 16 ==> (#[trigger] c@[ch]) == Map::<Seq<char>, u64>::empty()
                && c.channel_total(ch) == 0,
    {
        let mut channels: Vec<Vec<(String, u64)>> = Vec::new();
        let mut i: usize = 0;
        while i < 16
            invariant
                i <= 16,
                channels@.len() == i,
                forall|j: int| 0 <= j < i ==> (#[trigger] channels@[j])@.len() == 0,
            decreases 16 - i,
        {
            channels.push(Vec::new());
            i = i + 1;
        }
        let c = HopperCounters { channels };
        assert forall|ch: int| 0 <= ch < 16 implies names_distinct(#[trigger] c.tallies(ch)) by {}
        assert forall|ch: int| 0 <= ch < 16 implies (#[trigger] c@[ch]) == Map::<Seq<char>, u64>::empty()
            && c.channel_total(ch) == 0 by {
            assert(c.tallies(ch).len() == 0);
        }
        c
    }
}

/// Adds `count` to the tally of `key`, starting it at `count` when absent.
pub fn tally_add(items: &mut Vec<(String, u64)>, key: &str, count: u64)
    requires
        names_distinct(tally_view(old(items)@)),
        tally_map(tally_view(old(items)@)).contains_key(key@) ==> tally_map(tally_view(old(items)@))[key@]
            + count <= u64::MAX,
    ensures
        names_distinct(tally_view(final(items)@)),
        tally_map(tally_view(final(items)@)) == tally_map(tally_view(old(items)@)).insert(
            key@,
            if tally_map(tally_view(old(items)@)).contains_key(key@) {
                (tally_map(tally_view(old(items)@))[key@] + count) as u64
            } else {
                count
            },
        ),
        tally_sum(tally_view(final(items)@)) == tally_sum(tally_view(old(items)@)) + count,
{
    let ghost s = tally_view(items@);
    proof {
        lemma_tally_map_pairs(s);
    }
    let mut i: usize = 0;
    while i < items.len()
        invariant
            tally_view(items@) == s,
            i <= items@.len(),
            forall|j: int| 0 <= j < i ==> (#[trigger] s[j]).0 != key@,
        ensures
            tally_view(items@) == s,
            i <= items@.len(),
            i < items@.len() ==> s[i as int].0 == key@,
            forall|j: int| 0 <= j < i ==> (#[trigger] s[j]).0 != key@,
        decreases items@.len() - i,
    {
        assert(s[i as int] == (items@[i as int].0@, items@[i as int].1));
        if str_eq(items[i].0.as_str(), key) {
            break;
        }
        i = i + 1;
    }
    if i < items.len() {
        let name = items[i].0.clone();
        let old_count = items[i].1;
        proof {
            assert(s[i as int] == (items@[i as int].0@, items@[i as int].1));
            assert(s.contains(s[i as int]));
            assert(tally_map(s)[key@] == old_count);
        }
        let new_count = old_count + count;
        items.set(i, (name, new_count));
        proof {
            lemma_tally_update(s, i as int, new_count);
            assert(tally_view(items@) =~= s.update(i as int, (s[i as int].0, new_count)));
        }
    } else {
        proof {
            assert(!tally_map(s).contains_key(key@));
        }
        items.push((String::from_str(key), count));
        proof {
            let n = tally_view(items@);
            assert(n =~= s.push((key@, count)));
            assert(n.drop_last() =~= s);
            assert(tally_map(n) == tally_map(s).insert(key@, count));
            assert(tally_sum(n) == tally_sum(s) + count);
            assert forall|a: int, b: int| 0 <= a < n.len() && 0 <= b < n.len() && a != b implies (#[trigger] n[a]).0 != (#[trigger] n[b]).0 by {
                if a < s.len() && b < s.len() {
                    assert(n[a] == s[a]);
                    assert(n[b] == s[b]);
                } else if a < s.len() {
                    assert(n[a] == s[a]);
                } else if b < s.len() {
                    assert(n[b] == s[b]);
                }
            }
        }
    }
}

/// Records `count` items of `item_key` on `channel`; a channel outside the
/// sixteen is ignored.
pub fn add(counters: &mut HopperCounters, channel: usize, item_key: &str, count: u64)
    requires
        old(counters).wf(),
        channel < 16 && old(counters)@[channel as int].contains_key(item_key@) ==> old(counters)@[
            channel as int][item_key@] + count <= u64::MAX,
    ensures
        final(counters).wf(),
        final(counters)@.len() == 16,
        channel >= 16 ==> final(counters)@ == old(counters)@,
        channel < 16 ==> final(counters)@ == old(counters)@.update(
            channel as int,
            old(counters)@[channel as int].insert(
                item_key@,
                if old(counters)@[channel as int].contains_key(item_key@) {
                    (old(counters)@[channel as int][item_key@] + count) as u64
                } else {
                    count
                },
            ),
        ),
        forall|ch: int| 0 <= ch < 16 && ch != channel ==> final(counters).channel_total(ch) == old(
            counters,
        ).channel_total(ch),
        channel < 16 ==> final(counters).channel_total(channel as int) == old(counters).channel_total(
            channel as int,
        ) + count,
{
    if channel >= 16 {
        return;
    }
    let ghost before = *counters;
    let mut items = counters.channels.remove(channel);
    assert(tally_view(items@) == before.tallies(channel as int));
    tally_add(&mut items, item_key, count);
    counters.channels.insert(channel, items);
    proof {
        assert(counters.channels@ =~= before.channels@.update(channel as int, items));
        assert forall|ch: int| 0 <= ch < 16 && ch != channel implies #[trigger] counters.tallies(ch)
            == before.tallies(ch) by {}
        assert(counters.tallies(channel as int) == tally_view(items@));
        assert forall|ch: int| 0 <= ch < 16 implies names_distinct(#[trigger] counters.tallies(ch)) by {
            if ch != channel {
                assert(counters.tallies(ch) == before.tallies(ch));
            }
        }
        assert(counters@ =~= before@.update(
            channel as int,
            before@[channel as int].insert(
                item_key@,
                if before@[channel as int].contains_key(item_key@) {
                    (before@[channel as int][item_key@] + count) as u64
                } else {
                    count
                },
            ),
        ));
    }
}

/// Length, first and last character of a name, folded into one integer.
spec fn channel_key(s: Seq<char>) -> int {
    s.len() * 1000000 + (s[0] as int) * 1000 + (s[s.len() - 1] as int)
}

/// The channel whose name has key `k`.
spec fn channel_of_key(k: int) -> int {
    if k == 5119101 {
        0
    } else     if k == 6111101 {
        1
    } else     if k == 7109097 {
        2
    } else     if k == 10108101 {
        3
    } else     if k == 6121119 {
        4
    } else     if k == 4108101 {
        5
    } else     if k == 4112107 {
        6
    } else     if k == 4103121 {
        7
    } else     if k == 10108121 {
        8
    } else     if k == 4099110 {
        9
    } else     if k == 6112101 {
        10
    } else     if k == 4098101 {
        11
    } else     if k == 5098110 {
        12
    } else     if k == 5103110 {
        13
    } else     if k == 3114100 {
        14
    } else     if k == 5098107 {
        15
    } else {
        -1
    }
}

proof fn lemma_channel_key(i: int)
    requires
        0 <= i < 16,
    ensures
        channel_name(i).len() > 0,
        channel_of_key(channel_key(channel_name(i))) == i,
{
    if i == 0 {
        reveal_strlit("white");
    }
    if i == 1 {
        reveal_strlit("orange");
    }
    if i == 2 {
        reveal_strlit("magenta");
    }
    if i == 3 {
        reveal_strlit("light_blue");
    }
    if i == 4 {
        reveal_strlit("yellow");
    }
    if i == 5 {
        reveal_strlit("lime");
    }
    if i == 6 {
        reveal_strlit("pink");
    }
    if i == 7 {
        reveal_strlit("gray");
    }
    if i == 8 {
        reveal_strlit("light_gray");
    }
    if i == 9 {
        reveal_strlit("cyan");
    }
    if i == 10 {
        reveal_strlit("purple");
    }
    if i == 11 {
        reveal_strlit("blue");
    }
    if i == 12 {
        reveal_strlit("brown");
    }
    if i == 13 {
        reveal_strlit("green");
    }
    if i == 14 {
        reveal_strlit("red");
    }
    if i == 15 {
        reveal_strlit("black");
    }
}

/// No two channels share a name.
pub proof fn lemma_channel_names_distinct()
    ensures
        forall|i: int, j: int| 0 <= i < 16 && 0 <= j < 16 && #[trigger] channel_name(i) == #[trigger] channel_name(j) ==> i == j,
{
    assert forall|i: int, j: int| 0 <= i < 16 && 0 <= j < 16 && #[trigger] channel_name(i) == #[trigger] channel_name(j) implies i == j by {
        lemma_channel_key(i);
        lemma_channel_key(j);
    }
}

/// Equal tallies with distinct names give one map.
pub proof fn lemma_tally_map_permutation(a: Seq<(Seq<char>, u64)>, b: Seq<(Seq<char>, u64)>)
    requires
        names_distinct(a),
        names_distinct(b),
        a.to_multiset() == b.to_multiset(),
    ensures
        tally_map(a) == tally_map(b),
{
    lemma_tally_map_pairs(a);
    lemma_tally_map_pairs(b);
    a.to_multiset_ensures();
    b.to_multiset_ensures();
    assert forall|k: Seq<char>| #[trigger] tally_map(a).dom().contains(k) implies tally_map(b).dom().contains(k)
        && tally_map(b)[k] == tally_map(a)[k] by {
        let v = tally_map(a)[k];
        assert(a.contains((k, v)));
        assert(a.to_multiset().count((k, v)) > 0);
        assert(b.to_multiset().count((k, v)) > 0);
        assert(b.contains((k, v)));
        assert(tally_map(b).contains_key(k) && tally_map(b)[k] == v);
    }
    assert forall|k: Seq<char>| #[trigger] tally_map(b).dom().contains(k) implies tally_map(a).dom().contains(k)
        && tally_map(a)[k] == tally_map(b)[k] by {
        let v = tally_map(b)[k];
        assert(b.contains((k, v)));
        assert(b.to_multiset().count((k, v)) > 0);
        assert(a.to_multiset().count((k, v)) > 0);
        assert(a.contains((k, v)));
        assert(tally_map(a).contains_key(k) && tally_map(a)[k] == v);
    }
    assert(tally_map(a).dom() =~= tally_map(b).dom());
    assert(tally_map(a) =~= tally_map(b));
}

proof fn lemma_tally_sum_prefix(s: Seq<(Seq<char>, u64)>, i: int)
    requires
        0 <= i <= s.len(),
    ensures
        0 <= tally_sum(s.take(i)) <= tally_sum(s),
    decreases s.len(),
{
    if i == s.len() {
        assert(s.take(i) =~= s);
        if s.len() > 0 {
            lemma_tally_sum_prefix(s.drop_last(), s.len() - 1);
            assert(s.drop_last().take(s.len() - 1) =~= s.drop_last());
        }
    } else {
        lemma_tally_sum_prefix(s.drop_last(), i);
        assert(s.drop_last().take(i) =~= s.take(i));
        lemma_tally_sum_prefix(s.drop_last(), s.len() - 1);
        assert(s.drop_last().take(s.len() - 1) =~= s.drop_last());
    }
}

/// Snapshot of one channel as `(item, count)` pairs, largest count first,
/// equal counts by item key; empty for a channel outside the sixteen.
pub fn snapshot(counters: &HopperCounters, channel: usize) -> (out: Vec<(String, u64)>)
    requires
        counters.wf(),
    ensures
        channel >= 16 ==> out@.len() == 0,
        channel < 16 ==> ranked(tally_view(out@)) && names_distinct(tally_view(out@)) && tally_map(
            tally_view(out@),
        ) == counters@[channel as int],
{
    if channel >= 16 {
        return Vec::new();
    }
    let items = &counters.channels[channel];
    let ghost s = counters.tallies(channel as int);
    let mut copy: Vec<(String, u64)> = Vec::new();
    let mut i: usize = 0;
    while i < items.len()
        invariant
            tally_view(items@) == s,
            i <= items@.len(),
            copy@.len() == i,
            tally_view(copy@) == s.take(i as int),
        decreases items@.len() - i,
    {
        assert(s[i as int] == (items@[i as int].0@, items@[i as int].1));
        let key = items[i].0.clone();
        assert(key@ == items@[i as int].0@);
        let ghost prev = copy@;
        copy.push((key, items[i].1));
        proof {
            assert(copy@ == prev.push(copy@[i as int]));
            assert(tally_view(copy@) =~= tally_view(prev).push((copy@[i as int].0@, copy@[i as int].1)));
            assert(tally_view(copy@) =~= s.take(i + 1));
        }
        i = i + 1;
    }
    assert(s.take(items@.len() as int) =~= s);
    let out = rank_tallies(copy);
    proof {
        lemma_tally_map_permutation(tally_view(out@), s);
    }
    out
}

/// Total items counted on one channel; 0 for a channel outside the sixteen.
pub fn total(counters: &HopperCounters, channel: usize) -> (t: u64)
    requires
        counters.wf(),
        channel < 16 ==> counters.channel_total(channel as int) <= u64::MAX,
    ensures
        channel < 16 ==> t == counters.channel_total(channel as int),
        channel >= 16 ==> t == 0,
{
    if channel >= 16 {
        return 0;
    }
    let items = &counters.channels[channel];
    let ghost s = counters.tallies(channel as int);
    let mut sum: u64 = 0;
    let mut i: usize = 0;
    while i < items.len()
        invariant
            tally_view(items@) == s,
            tally_sum(s) <= u64::MAX,
            i <= items@.len(),
            sum == tally_sum(s.take(i as int)),
        decreases items@.len() - i,
    {
        proof {
            assert(s.take(i + 1).drop_last() =~= s.take(i as int));
            assert(s[i as int].1 == items@[i as int].1);
            lemma_tally_sum_prefix(s, i + 1);
        }
        sum = sum + items[i].1;
        i = i + 1;
    }
    assert(s.take(items@.len() as int) =~= s);
    sum
}

/// Resets one channel, or every channel when `channel` is `None`; a channel
/// outside the sixteen is ignored.
pub fn reset(counters: &mut HopperCounters, channel: Option<usize>)
    requires
        old(counters).wf(),
    ensures
        final(counters).wf(),
        channel is Some && channel.unwrap() < 16 ==> final(counters)@ == old(counters)@.update(
            channel.unwrap() as int,
            Map::<Seq<char>, u64>::empty(),
        ),
        channel is Some && channel.unwrap() < 16 ==> final(counters).channel_total(
            channel.unwrap() as int,
        ) == 0,
        channel is Some && channel.unwrap() < 16 ==> forall|c: int|
            0 <= c < 16 && c != channel.unwrap() ==> #[trigger] final(counters).channel_total(c)
                == old(counters).channel_total(c),
        channel is Some && channel.unwrap() >= 16 ==> final(counters)@ == old(counters)@,
        channel is Some && channel.unwrap() >= 16 ==> forall|c: int|
            0 <= c < 16 ==> #[trigger] final(counters).channel_total(c) == old(counters).channel_total(c),
        channel is None ==> forall|c: int|
            0 <= c < 16 ==> #[trigger] final(counters)@[c] == Map::<Seq<char>, u64>::empty()
                && final(counters).channel_total(c) == 0,
        final(counters)@.len() == 16,
{
    match channel {
        Some(ch) => {
            if ch < 16 {
                let ghost before = *counters;
                counters.channels.set(ch, Vec::new());
                proof {
                    assert forall|c: int| 0 <= c < 16 && c != ch implies #[trigger] counters.tallies(c)
                        == before.tallies(c) by {}
                    assert(counters.tallies(ch as int).len() == 0);
                    assert forall|c: int| 0 <= c < 16 implies names_distinct(#[trigger] counters.tallies(c)) by {
                        if c != ch {
                            assert(counters.tallies(c) == before.tallies(c));
                        }
                    }
                    assert(counters@ =~= before@.update(ch as int, Map::<Seq<char>, u64>::empty()));
                }
            }
        },
        None => {
            let fresh = HopperCounters::new();
            assert forall|c: int| 0 <= c < 16 implies #[trigger] fresh@[c] == Map::<Seq<char>, u64>::empty()
                && fresh.channel_total(c) == 0 by {
                assert(fresh@[c] == Map::<Seq<char>, u64>::empty());
                assert(fresh.channel_total(c) == 0);
            }
            *counters = fresh;
        },
    }
}

/// Resolves a channel name (or `#<index>`) to its channel index.
pub fn channel_from_name(name: &str) -> (r: Option<usize>)
    ensures
        r matches Some(i) ==> channel_named(name@) == Some(i as int),
        r is None ==> channel_named(name@) is None,
{
    let mut i: usize = 0;
    while i < 16
        invariant
            i <= 16,
            forall|j: int| 0 <= j < i ==> #[trigger] channel_name(j) != name@,
        decreases 16 - i,
    {
        if str_eq(CHANNEL_NAMES[i], name) {
            proof {
                lemma_channel_names_distinct();
                assert(channel_name(i as int) == name@);
                let c = choose|c: int| 0 <= c < 16 && #[trigger] channel_name(c) == name@;
                assert(channel_name(c) == channel_name(i as int));
            }
            return Some(i);
        }
        i = i + 1;
    }
    let n = name.unicode_len();
    if n > 0 && name.get_char(0) == '#' {
        let rest = name.substring_char(1, n);
        assert(rest@ =~= name@.skip(1));
        parse_usize(rest)
    } else {
        None
    }
}


/// Every channel is found again by its own name.
pub proof fn lemma_channel_round_trip()
    ensures
        forall|i: int| 0 <= i < 16 ==> channel_named(#[trigger] channel_name(i)) == Some(i),
{
    lemma_channel_names_distinct();
    assert forall|i: int| 0 <= i < 16 implies channel_named(#[trigger] channel_name(i)) == Some(i) by {
        assert(exists|j: int| 0 <= j < 16 && #[trigger] channel_name(j) == channel_name(i));
        let c = choose|j: int| 0 <= j < 16 && #[trigger] channel_name(j) == channel_name(i);
        assert(c == i);
    }
}


/// The counter channel a wool block feeds, by the block's registry name
/// (`<color>_wool`), or `None` for any other block.
pub fn wool_channel(block_name: &str) -> (r: Option<usize>)
    ensures
        r matches Some(i) ==> i < 16 && block_name@ == channel_name(i as int) + "_wool"@,
        r is None ==> forall|i: int| 0 <= i < 16 ==> block_name@ != channel_name(i) + "_wool"@,
{
    let mut i: usize = 0;
    while i < 16
        invariant
            i <= 16,
            forall|j: int| 0 <= j < i ==> block_name@ != #[trigger] channel_name(j) + "_wool"@,
        decreases 16 - i,
    {
        let wool = String::from_str(CHANNEL_NAMES[i]).concat("_wool");
        if crate::text::str_eq(wool.as_str(), block_name) {
            return Some(i);
        }
        i = i + 1;
    }
    None
}

} // verus!
