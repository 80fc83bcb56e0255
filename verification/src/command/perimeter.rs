//! `/perimeterinfo`: counts the spots around a position where monsters can
//! spawn, per height level, and reports the busiest levels.

use vstd::prelude::*;
use vstd::seq_lib::{to_multiset_insert, group_to_multiset_ensures};
use crate::geometry::{command_count, saturated_count};
use std::collections::BTreeMap;
use vstd::std_specs::btree::spec_btree_map_iter;
use vstd::std_specs::iter::IteratorSpec;
use crate::keyed::{keyed_map, keys_distinct, lemma_keyed_lookup};
use crate::text::{decimal, i64_to_text, signed_decimal, u64_to_text};

use crate::command::tree::{ArgumentType, CommandTree, Executor, NodeKind, argument, is_node};

verus! {

/// Half-width of the scanned square, in blocks.
pub const SCAN_RADIUS: i32 = 16;

/// How many levels the report lists.
pub const LEVELS_SHOWN: usize = 5;

/// The scanned columns around (`cx`, `cz`): `(min_x, max_x, min_z, max_z)`,
/// or `None` when the square leaves the `i32` range.
pub fn scan_bounds(cx: i32, cz: i32) -> (r: Option<(i32, i32, i32, i32)>)
    ensures
        r is Some <==> (i32::MIN + SCAN_RADIUS <= cx <= i32::MAX - SCAN_RADIUS && i32::MIN
            + SCAN_RADIUS <= cz <= i32::MAX - SCAN_RADIUS),
        r matches Some(b) ==> b == (
            (cx - SCAN_RADIUS) as i32,
            (cx + SCAN_RADIUS) as i32,
            (cz - SCAN_RADIUS) as i32,
            (cz + SCAN_RADIUS) as i32,
        ),
{
    let min_x = match cx.checked_sub(SCAN_RADIUS) {
        Some(v) => v,
        None => return None,
    };
    let max_x = match cx.checked_add(SCAN_RADIUS) {
        Some(v) => v,
        None => return None,
    };
    let min_z = match cz.checked_sub(SCAN_RADIUS) {
        Some(v) => v,
        None => return None,
    };
    let max_z = match cz.checked_add(SCAN_RADIUS) {
        Some(v) => v,
        None => return None,
    };
    Some((min_x, max_x, min_z, max_z))
}

/// `a` is listed before `b`: more spots, or as many spots and a lower level.
pub open spec fn level_before(a: (i32, u64), b: (i32, u64)) -> bool {
    a.1 > b.1 || (a.1 == b.1 && a.0 < b.0)
}

/// Every earlier level is listed before every later one.
pub open spec fn levels_ranked(s: Seq<(i32, u64)>) -> bool {
    forall|i: int, j: int| 0 <= i < j < s.len() ==> level_before(#[trigger] s[i], #[trigger] s[j])
}

/// `x + 1`, stopping at `u64::MAX`.
pub open spec fn bump(x: u64) -> u64 {
    if x == u64::MAX {
        x
    } else {
        (x + 1) as u64
    }
}

/// Spawnable spots found so far: the total and the count per height level,
/// each saturating at `u64::MAX`.
pub struct SpawnLevels {
    total: u64,
    levels: BTreeMap<i32, u64>,
}

impl View for SpawnLevels {
    /// `(total, count per level)`.
    type V = (u64, Map<i32, u64>);

    closed spec fn view(&self) -> (u64, Map<i32, u64>) {
        (self.total, self.levels@)
    }
}

impl SpawnLevels {
    /// Nothing found yet.
    pub fn new() -> (s: Self)
        ensures
            s@ == (0u64, Map::<i32, u64>::empty()),
    {
        SpawnLevels { total: 0, levels: BTreeMap::new() }
    }

    /// Counts one spawnable spot at height `y`.
    pub fn record(&mut self, y: i32)
        ensures
            final(self)@.0 == bump(old(self)@.0),
            final(self)@.1 == old(self)@.1.insert(
                y,
                if old(self)@.1.contains_key(y) {
                    bump(old(self)@.1[y])
                } else {
                    1u64
                },
            ),
    {
        self.total = if self.total == u64::MAX {
            self.total
        } else {
            self.total + 1
        };
        let next: u64 = match self.levels.get(&y) {
            Some(count) => if *count == u64::MAX {
                *count
            } else {
                *count + 1
            },
            None => 1,
        };
        self.levels.insert(y, next);
    }

    /// The total number of spots found.
    pub fn total(&self) -> (t: u64)
        ensures
            t == self@.0,
    {
        self.total
    }

    /// `/perimeterinfo`'s command result: the total, saturated at `i32::MAX`.
    pub fn command_result(&self) -> (r: i32)
        ensures
            r == saturated_count(self@.0 as int),
    {
        command_count(self.total)
    }

    /// Every level with its count, listed by `level_before`.
    pub fn ranked(&self) -> (out: Vec<(i32, u64)>)
        ensures
            levels_ranked(out@),
            keys_distinct(out@),
            keyed_map(out@) == self@.1,
    {
        let ghost m = self.levels@;
        let ghost rem = spec_btree_map_iter(&self.levels).remaining();
        let mut copy: Vec<(i32, u64)> = Vec::new();
        for kv in it: self.levels.iter()
            invariant
                m == self.levels@,
                rem == spec_btree_map_iter(&self.levels).remaining(),
                it.seq() == rem,
                rem.no_duplicates(),
                copy@ == rem.take(it.index() as int).map_values(|e: (&i32, &u64)| (*e.0, *e.1)),
        {
            copy.push((*kv.0, *kv.1));
        }
        assert(copy@ == rem.map_values(|e: (&i32, &u64)| (*e.0, *e.1)));
        proof {
            let c = copy@;
            assert forall|i: int| 0 <= i < c.len() implies #[trigger] c[i] == (*rem[i].0, *rem[i].1)
                && m.contains_key(c[i].0) && m[c[i].0] == c[i].1 by {
                assert(m.contains_key(*rem[i].0));
            }
            assert forall|i: int, j: int| 0 <= i < c.len() && 0 <= j < c.len() && i != j implies (
            #[trigger] c[i]).0 != (#[trigger] c[j]).0 by {
                if c[i].0 == c[j].0 {
                    assert(rem[i] == rem[j]);
                }
            }
            lemma_keyed_lookup(c);
            assert forall|k: i32| #[trigger] m.contains_key(k) implies keyed_map(c).contains_key(k) by {
                assert(rem.contains((&k, &m[k])));
                let i = choose|i: int| 0 <= i < rem.len() && rem[i] == (&k, &m[k]);
                assert(c[i].0 == k);
            }
            assert forall|k: i32| #[trigger] keyed_map(c).contains_key(k) implies m.contains_key(k)
                && keyed_map(c)[k] == m[k] by {
                let i = choose|i: int| 0 <= i < c.len() && (#[trigger] c[i]).0 == k;
            }
            assert(keyed_map(c) =~= m);
        }
        let ghost c = copy@;
        let out = rank_levels(copy);
        proof {
            lemma_keyed_lookup(out@);
            lemma_keyed_lookup(c);
            assert forall|k: i32| #[trigger] keyed_map(out@).contains_key(k) <==> keyed_map(c).contains_key(
                k,
            ) by {
                if keyed_map(out@).contains_key(k) {
                    let j = choose|j: int| 0 <= j < out@.len() && (#[trigger] out@[j]).0 == k;
                    lemma_multiset_contains(out@, c, out@[j]);
                    let n = choose|n: int| 0 <= n < c.len() && c[n] == out@[j];
                    assert(c[n].0 == k);
                }
                if keyed_map(c).contains_key(k) {
                    let j = choose|j: int| 0 <= j < c.len() && (#[trigger] c[j]).0 == k;
                    lemma_multiset_contains(c, out@, c[j]);
                    let n = choose|n: int| 0 <= n < out@.len() && out@[n] == c[j];
                    assert(out@[n].0 == k);
                }
            }
            assert forall|k: i32| #[trigger] keyed_map(out@).contains_key(k) implies keyed_map(out@)[k]
                == keyed_map(c)[k] by {
                let j = choose|j: int| 0 <= j < out@.len() && (#[trigger] out@[j]).0 == k;
                lemma_multiset_contains(out@, c, out@[j]);
                let n = choose|n: int| 0 <= n < c.len() && c[n] == out@[j];
                assert(c[n].0 == k);
            }
            assert(keyed_map(out@) =~= keyed_map(c));
        }
        out
    }

    /// The report `/perimeterinfo` sends for the scan around `center`.
    pub fn report(&self, center: &str) -> (s: String)
        ensures
            exists|all: Seq<(i32, u64)>| {
                &&& levels_ranked(all)
                &&& keys_distinct(all)
                &&& keyed_map(all) == self@.1
                &&& s@ == perimeter_text(
                    center@,
                    self@.0,
                    all.take(if all.len() < LEVELS_SHOWN { all.len() as int } else { LEVELS_SHOWN as int }),
                )
            },
    {
        let ranked = self.ranked();
        let mut shown: Vec<(i32, u64)> = Vec::new();
        let mut i: usize = 0;
        while i < ranked.len() && i < LEVELS_SHOWN
            invariant
                i <= ranked@.len(),
                i <= LEVELS_SHOWN,
                shown@ == ranked@.subrange(0, i as int),
            decreases LEVELS_SHOWN - i,
        {
            shown.push(ranked[i]);
            i = i + 1;
            assert(shown@ =~= ranked@.subrange(0, i as int));
        }
        let s = perimeter_message(center, self.total, &shown);
        assert(shown@ =~= ranked@.take(
            if ranked@.len() < LEVELS_SHOWN { ranked@.len() as int } else { LEVELS_SHOWN as int },
        ));
        s
    }
}

proof fn lemma_multiset_contains(a: Seq<(i32, u64)>, b: Seq<(i32, u64)>, x: (i32, u64))
    requires
        a.to_multiset() == b.to_multiset(),
        a.contains(x),
    ensures
        b.contains(x),
{
    broadcast use group_to_multiset_ensures;

    assert(a.to_multiset().count(x) > 0);
}

/// Orders levels by `level_before`; the result holds exactly the given entries.
pub fn rank_levels(items: Vec<(i32, u64)>) -> (out: Vec<(i32, u64)>)
    requires
        keys_distinct(items@),
    ensures
        levels_ranked(out@),
        keys_distinct(out@),
        out@.to_multiset() == items@.to_multiset(),
        out@.len() == items@.len(),
{
    broadcast use group_to_multiset_ensures;

    let ghost src = items@;
    let mut out: Vec<(i32, u64)> = Vec::new();
    let mut rest = items;
    let ghost taken: Seq<(i32, u64)> = Seq::empty();
    while rest.len() > 0
        invariant
            keys_distinct(src),
            src == rest@ + taken,
            levels_ranked(out@),
            keys_distinct(out@),
            out@.to_multiset() == taken.to_multiset(),
            out@.len() == taken.len(),
        decreases rest@.len(),
    {
        let ghost before_rest = rest@;
        let item = rest.pop().unwrap();
        let ghost ov = out@;
        assert(before_rest =~= rest@.push(item));
        assert(src[rest@.len() as int] == item);
        assert forall|k: int| 0 <= k < ov.len() implies (#[trigger] ov[k]).0 != item.0 by {
            ov.to_multiset_ensures();
            taken.to_multiset_ensures();
            assert(ov.contains(ov[k]));
            assert(ov.to_multiset().count(ov[k]) > 0);
            assert(taken.contains(ov[k]));
            let t = choose|t: int| 0 <= t < taken.len() && taken[t] == ov[k];
            assert(src[rest@.len() + 1 + t] == taken[t]);
        }
        let mut p: usize = 0;
        while p < out.len()
            invariant
                0 <= p <= out@.len(),
                ov == out@,
                forall|k: int| 0 <= k < p ==> !level_before(item, #[trigger] ov[k]),
            ensures
                0 <= p <= out@.len(),
                forall|k: int| 0 <= k < p ==> !level_before(item, #[trigger] ov[k]),
                p < out@.len() ==> level_before(item, ov[p as int]),
            decreases out@.len() - p,
        {
            let cur = out[p];
            if item.1 > cur.1 || (item.1 == cur.1 && item.0 < cur.0) {
                break;
            }
            p = p + 1;
        }
        proof {
            assert forall|k: int| 0 <= k < p implies level_before(#[trigger] ov[k], item) by {
                assert(ov[k].0 != item.0);
            }
            if p < ov.len() {
                assert forall|k: int| p <= k < ov.len() implies level_before(item, #[trigger] ov[k]) by {
                    if k > p {
                        assert(level_before(ov[p as int], ov[k]));
                    }
                }
            }
        }
        out.insert(p, item);
        proof {
            let nv = out@;
            assert(nv =~= ov.insert(p as int, item));
            assert forall|i: int, j: int| 0 <= i < j < nv.len() implies level_before(
                #[trigger] nv[i],
                #[trigger] nv[j],
            ) by {
                if j < p {
                } else if i < p && j == p {
                } else if i < p && j > p {
                    assert(nv[j] == ov[j - 1]);
                } else if i == p {
                    assert(nv[j] == ov[j - 1]);
                } else {
                    assert(nv[i] == ov[i - 1]);
                    assert(nv[j] == ov[j - 1]);
                }
            }
            assert forall|i: int, j: int| 0 <= i < nv.len() && 0 <= j < nv.len() && i != j implies (
            #[trigger] nv[i]).0 != (#[trigger] nv[j]).0 by {
                if i != p && j != p {
                    let oi = if i < p { i } else { i - 1 };
                    let oj = if j < p { j } else { j - 1 };
                    assert(nv[i] == ov[oi]);
                    assert(nv[j] == ov[oj]);
                } else if i == p {
                    let oj = if j < p { j } else { j - 1 };
                    assert(nv[j] == ov[oj]);
                } else {
                    let oi = if i < p { i } else { i - 1 };
                    assert(nv[i] == ov[oi]);
                }
            }
            to_multiset_insert(ov, p as int, item);
            vstd::seq_lib::lemma_multiset_commutative(seq![item], taken);
            assert(ov.to_multiset().insert(item) =~= (seq![item] + taken).to_multiset()) by {
                broadcast use vstd::multiset::group_multiset_axioms;
                assert(seq![item].to_multiset() =~= vstd::multiset::Multiset::singleton(item)) by {
                    let e = Seq::<(i32, u64)>::empty();
                    e.to_multiset_ensures();
                    assert(e.push(item) =~= seq![item]);
                    assert(e.to_multiset() =~= vstd::multiset::Multiset::empty());
                }
            }
            taken = seq![item] + taken;
            assert(src =~= rest@ + taken);
        }
    }
    assert(taken =~= src);
    out
}

/// One line per listed level: `\ny=<level>: <count> spots`.
pub open spec fn level_lines(top: Seq<(i32, u64)>) -> Seq<char>
    decreases top.len(),
{
    if top.len() == 0 {
        Seq::empty()
    } else {
        level_lines(top.drop_last()) + "\ny="@ + signed_decimal(top.last().0 as int) + ": "@
            + decimal(top.last().1 as nat) + " spots"@
    }
}

/// The `/perimeterinfo` report for `total` spots around `center`, listing `top`.
pub open spec fn perimeter_text(center: Seq<char>, total: u64, top: Seq<(i32, u64)>) -> Seq<char> {
    "Spawnable spots for monsters within 16 blocks of "@ + center + ": "@ + decimal(total as nat) + (
    if total > 0 {
        "\nHighest chance levels:"@ + level_lines(top)
    } else {
        "\nThe perimeter is fully spawnproof!"@
    })
}

/// `perimeter_text` of its arguments.
pub fn perimeter_message(center: &str, total: u64, top: &Vec<(i32, u64)>) -> (s: String)
    ensures
        s@ == perimeter_text(center@, total, top@),
{
    let mut s = String::new();
    s.append("Spawnable spots for monsters within 16 blocks of ");
    s.append(center);
    s.append(": ");
    let t = u64_to_text(total);
    s.append(t.as_str());
    let ghost head = s@;
    if total > 0 {
        s.append("\nHighest chance levels:");
        let ghost intro = s@;
        let mut i: usize = 0;
        assert(top@.subrange(0, 0) =~= Seq::<(i32, u64)>::empty());
        while i < top.len()
            invariant
                i <= top@.len(),
                s@ == intro + level_lines(top@.subrange(0, i as int)),
            decreases top@.len() - i,
        {
            let (y, count) = top[i];
            let ghost prefix = top@.subrange(0, i as int);
            s.append("\ny=");
            let ys = i64_to_text(y as i64);
            s.append(ys.as_str());
            s.append(": ");
            let cs = u64_to_text(count);
            s.append(cs.as_str());
            s.append(" spots");
            i = i + 1;
            proof {
                let next = top@.subrange(0, i as int);
                assert(next.drop_last() =~= prefix);
                assert(next.last() == (y, count));
                assert(s@ =~= intro + level_lines(next));
            }
        }
        assert(top@.subrange(0, top@.len() as int) =~= top@);
        assert(s@ =~= head + ("\nHighest chance levels:"@ + level_lines(top@)));
    } else {
        s.append("\nThe perimeter is fully spawnproof!");
    }
    s
}


pub const NAMES: [&'static str; 1] = ["perimeterinfo"];

pub const DESCRIPTION: &'static str = "Scans the surroundings for spots where monsters can spawn.";

/// `/perimeterinfo` (around the player) and `/perimeterinfo <pos>`.
pub fn init_command_tree() -> (t: CommandTree)
    ensures
        t.names@ == NAMES@,
        t.description == DESCRIPTION,
        t.executor == Some(Executor::PerimeterInfo { needs_arg: false }),
        t.children@.len() == 1,
        is_node(
            t.children@[0],
            "pos"@,
            NodeKind::Argument(ArgumentType::BlockPos),
            Some(Executor::PerimeterInfo { needs_arg: true }),
            0,
        ),
{
    CommandTree::new(&NAMES, DESCRIPTION).execute(Executor::PerimeterInfo { needs_arg: false }).followed_by(
        argument("pos", ArgumentType::BlockPos).execute(Executor::PerimeterInfo { needs_arg: true }),
    )
}

} // verus!
