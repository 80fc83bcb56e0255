//! Ordering of `(name, count)` tallies: largest count first, equal counts by
//! name. Hopper counters and spawn tracking report their tallies this way.

use vstd::prelude::*;
use vstd::seq_lib::{to_multiset_insert, group_to_multiset_ensures};
use crate::text::{seq_lt, str_lt, lemma_seq_lt_total, lemma_seq_lt_transitive, lemma_seq_lt_asymmetric};

verus! {

/// The view of a tally list.
pub open spec fn tally_view(v: Seq<(String, u64)>) -> Seq<(Seq<char>, u64)> {
    v.map_values(|e: (String, u64)| (e.0@, e.1))
}

/// `x` comes before `y`: a larger count, or an equal count and a smaller name.
pub open spec fn ranks_before(x: (Seq<char>, u64), y: (Seq<char>, u64)) -> bool {
    x.1 > y.1 || (x.1 == y.1 && seq_lt(x.0, y.0))
}

/// Every earlier entry ranks before every later one.
pub open spec fn ranked(s: Seq<(Seq<char>, u64)>) -> bool {
    forall|i: int, j: int| 0 <= i < j < s.len() ==> ranks_before(#[trigger] s[i], #[trigger] s[j])
}

/// No name occurs twice.
pub open spec fn names_distinct(s: Seq<(Seq<char>, u64)>) -> bool {
    forall|i: int, j: int| 0 <= i < s.len() && 0 <= j < s.len() && i != j ==> (#[trigger] s[i]).0
        != (#[trigger] s[j]).0
}

proof fn lemma_ranks_transitive(x: (Seq<char>, u64), y: (Seq<char>, u64), z: (Seq<char>, u64))
    requires
        ranks_before(x, y),
        ranks_before(y, z),
    ensures
        ranks_before(x, z),
{
    if x.1 == y.1 && y.1 == z.1 {
        lemma_seq_lt_transitive(x.0, y.0, z.0);
    }
}

proof fn lemma_ranks_total(x: (Seq<char>, u64), y: (Seq<char>, u64))
    requires
        x.0 != y.0,
    ensures
        ranks_before(x, y) || ranks_before(y, x),
{
    lemma_seq_lt_total(x.0, y.0);
}

fn ranks_before_exec(x: &(String, u64), y: &(String, u64)) -> (r: bool)
    ensures
        r == ranks_before((x.0@, x.1), (y.0@, y.1)),
{
    x.1 > y.1 || (x.1 == y.1 && str_lt(x.0.as_str(), y.0.as_str()))
}

/// Orders tallies with distinct names: largest count first, equal counts by
/// name. The result holds exactly the given entries.
pub fn rank_tallies(items: Vec<(String, u64)>) -> (out: Vec<(String, u64)>)
    requires
        names_distinct(tally_view(items@)),
    ensures
        ranked(tally_view(out@)),
        names_distinct(tally_view(out@)),
        tally_view(out@).to_multiset() == tally_view(items@).to_multiset(),
        out@.len() == items@.len(),
{
    broadcast use group_to_multiset_ensures;

    let ghost src = tally_view(items@);
    let mut out: Vec<(String, u64)> = Vec::new();
    let mut rest = items;
    let ghost taken: Seq<(Seq<char>, u64)> = Seq::empty();
    // `rest` is consumed from the back; `taken` is what already moved to `out`.
    while rest.len() > 0
        invariant
            names_distinct(src),
            src == tally_view(rest@) + taken,
            ranked(tally_view(out@)),
            names_distinct(tally_view(out@)),
            tally_view(out@).to_multiset() == taken.to_multiset(),
            out@.len() == taken.len(),
        decreases rest@.len(),
    {
        let ghost before_rest = rest@;
        let item = rest.pop().unwrap();
        let ghost iv = (item.0@, item.1);
        let ghost ov = tally_view(out@);
        assert(tally_view(before_rest) =~= tally_view(rest@).push(iv));
        assert(src[rest@.len() as int] == iv);
        // The new item's name differs from every name already placed.
        assert forall|k: int| 0 <= k < ov.len() implies (#[trigger] ov[k]).0 != iv.0 by {
            ov.to_multiset_ensures();
            taken.to_multiset_ensures();
            assert(ov.contains(ov[k]));
            assert(ov.to_multiset().count(ov[k]) > 0);
            assert(taken.contains(ov[k]));
            let t = choose|t: int| 0 <= t < taken.len() && taken[t] == ov[k];
            assert(src[rest@.len() + 1 + t] == taken[t]);
        }
        let mut p: usize = 0;
        while p < out.len()
            invariant
                0 <= p <= out@.len(),
                ov == tally_view(out@),
                iv == (item.0@, item.1),
                forall|k: int| 0 <= k < p ==> !ranks_before(iv, #[trigger] ov[k]),
            ensures
                0 <= p <= out@.len(),
                forall|k: int| 0 <= k < p ==> !ranks_before(iv, #[trigger] ov[k]),
                p < out@.len() ==> ranks_before(iv, ov[p as int]),
            decreases out@.len() - p,
        {
            assert(ov[p as int] == (out@[p as int].0@, out@[p as int].1));
            if ranks_before_exec(&item, &out[p]) {
                break;
            }
            p = p + 1;
        }
        proof {
            assert forall|k: int| 0 <= k < p implies ranks_before(#[trigger] ov[k], iv) by {
                lemma_ranks_total(iv, ov[k]);
            }
            if p < ov.len() {
                assert(ranks_before(iv, ov[p as int]));
                assert forall|k: int| p <= k < ov.len() implies ranks_before(iv, #[trigger] ov[k]) by {
                    if k > p {
                        lemma_ranks_transitive(iv, ov[p as int], ov[k]);
                    }
                }
            }
        }
        out.insert(p, item);
        proof {
            let nv = tally_view(out@);
            assert(nv =~= ov.insert(p as int, iv));
            assert forall|i: int, j: int| 0 <= i < j < nv.len() implies ranks_before(
                #[trigger] nv[i],
                #[trigger] nv[j],
            ) by {
                if j < p {
                } else if i < p && j == p {
                } else if i < p && j > p {
                    assert(nv[j] == ov[j - 1]);
                } else if i == p {
                    assert(nv[j] == ov[j - 1]);
                } else {
                    assert(nv[i] == ov[i - 1]);
                    assert(nv[j] == ov[j - 1]);
                }
            }
            assert forall|i: int, j: int| 0 <= i < nv.len() && 0 <= j < nv.len() && i != j implies (
            #[trigger] nv[i]).0 != (#[trigger] nv[j]).0 by {
                if i != p && j != p {
                    let oi = if i < p { i } else { i - 1 };
                    let oj = if j < p { j } else { j - 1 };
                    assert(nv[i] == ov[oi]);
                    assert(nv[j] == ov[oj]);
                } else if i == p {
                    let oj = if j < p { j } else { j - 1 };
                    assert(nv[j] == ov[oj]);
                } else {
                    let oi = if i < p { i } else { i - 1 };
                    assert(nv[i] == ov[oi]);
                }
            }
            to_multiset_insert(ov, p as int, iv);
            vstd::seq_lib::lemma_multiset_commutative(seq![iv], taken);
            assert(ov.to_multiset().insert(iv) =~= (seq![iv] + taken).to_multiset()) by {
                broadcast use vstd::multiset::group_multiset_axioms;
                assert(seq![iv].to_multiset() =~= vstd::multiset::Multiset::singleton(iv)) by {
                    let e = Seq::<(Seq<char>, u64)>::empty();
                    e.to_multiset_ensures();
                    assert(e.push(iv) =~= seq![iv]);
                    assert(e.to_multiset() =~= vstd::multiset::Multiset::empty());
                }
            }
            taken = seq![iv] + taken;
            assert(src =~= tally_view(rest@) + taken);
        }
    }
    assert(taken =~= src);
    out
}

} // verus!
