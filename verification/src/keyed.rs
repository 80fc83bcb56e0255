//! Lists of `(key, value)` entries with distinct keys, seen as maps.

use vstd::prelude::*;
use crate::text::str_eq;

verus! {

/// No key occurs twice.
pub open spec fn keys_distinct<K, V>(s: Seq<(K, V)>) -> bool {
    forall|i: int, j: int| 0 <= i < s.len() && 0 <= j < s.len() && i != j ==> (#[trigger] s[i]).0
        != (#[trigger] s[j]).0
}

/// The entries as a map from name to value (a later entry wins).
pub open spec fn keyed_map<K, V>(s: Seq<(K, V)>) -> Map<K, V>
    decreases s.len(),
{
    if s.len() == 0 {
        Map::empty()
    } else {
        keyed_map(s.drop_last()).insert(s.last().0, s.last().1)
    }
}

/// The view of a list whose names are `String`s.
pub open spec fn keyed_view<V>(v: Seq<(String, V)>) -> Seq<(Seq<char>, V)> {
    v.map_values(|e: (String, V)| (e.0@, e.1))
}

proof fn lemma_keys_distinct_drop_last<K, V>(s: Seq<(K, V)>)
    requires
        keys_distinct(s),
        s.len() > 0,
    ensures
        keys_distinct(s.drop_last()),
{
    let t = s.drop_last();
    assert forall|i: int, j: int| 0 <= i < t.len() && 0 <= j < t.len() && i != j implies (#[trigger] t[i]).0 != (#[trigger] t[j]).0 by {
        assert(t[i] == s[i]);
        assert(t[j] == s[j]);
    }
}

/// With distinct names, the map holds name `k` with value `s[i].1` exactly
/// where `s[i].0 == k`.
pub proof fn lemma_keyed_lookup<K, V>(s: Seq<(K, V)>)
    requires
        keys_distinct(s),
    ensures
        forall|i: int| 0 <= i < s.len() ==> #[trigger] keyed_map(s).contains_key(s[i].0) && keyed_map(s)[s[i].0] == s[i].1,
        forall|k: K| #[trigger] keyed_map(s).contains_key(k) ==> exists|i: int| 0 <= i < s.len() && (#[trigger] s[i]).0 == k,
    decreases s.len(),
{
    if s.len() > 0 {
        let t = s.drop_last();
        lemma_keys_distinct_drop_last(s);
        lemma_keyed_lookup(t);
        assert forall|i: int| 0 <= i < s.len() implies #[trigger] keyed_map(s).contains_key(s[i].0) && keyed_map(s)[s[i].0] == s[i].1 by {
            if i < s.len() - 1 {
                assert(t[i] == s[i]);
                assert(s[i].0 != s.last().0);
                assert(keyed_map(t).contains_key(t[i].0));
            }
        }
        assert forall|k: K| #[trigger] keyed_map(s).contains_key(k) implies exists|i: int| 0 <= i < s.len() && (#[trigger] s[i]).0 == k by {
            if k == s.last().0 {
                assert(s[s.len() - 1].0 == k);
            } else {
                assert(keyed_map(t).contains_key(k));
                let i = choose|i: int| 0 <= i < t.len() && (#[trigger] t[i]).0 == k;
                assert(s[i] == t[i]);
            }
        }
    }
}

/// Replacing the value at a position updates the map at that name.
pub proof fn lemma_keyed_update<K, V>(s: Seq<(K, V)>, i: int, v: V)
    requires
        keys_distinct(s),
        0 <= i < s.len(),
    ensures
        keyed_map(s.update(i, (s[i].0, v))) == keyed_map(s).insert(s[i].0, v),
        keys_distinct(s.update(i, (s[i].0, v))),
    decreases s.len(),
{
    let u = s.update(i, (s[i].0, v));
    let t = s.drop_last();
    lemma_keys_distinct_drop_last(s);
    if i == s.len() - 1 {
        assert(u.drop_last() =~= t);
        assert(keyed_map(u) =~= keyed_map(s).insert(s[i].0, v));
    } else {
        lemma_keyed_update(t, i, v);
        assert(u.drop_last() =~= t.update(i, (s[i].0, v)));
        assert(s[i].0 != s.last().0);
        assert(keyed_map(u) =~= keyed_map(s).insert(s[i].0, v));
    }
    assert forall|a: int, b: int| 0 <= a < u.len() && 0 <= b < u.len() && a != b implies (#[trigger] u[a]).0 != (#[trigger] u[b]).0 by {}
}

/// Appending an entry under a new name inserts it into the map.
pub proof fn lemma_keyed_push<K, V>(s: Seq<(K, V)>, k: K, v: V)
    requires
        keys_distinct(s),
        !keyed_map(s).contains_key(k),
    ensures
        keyed_map(s.push((k, v))) == keyed_map(s).insert(k, v),
        keys_distinct(s.push((k, v))),
{
    let n = s.push((k, v));
    assert(n.drop_last() =~= s);
    lemma_keyed_lookup(s);
    assert forall|a: int, b: int| 0 <= a < n.len() && 0 <= b < n.len() && a != b implies (#[trigger] n[a]).0 != (#[trigger] n[b]).0 by {
        if a < s.len() && b < s.len() {
            assert(n[a] == s[a]);
            assert(n[b] == s[b]);
        } else if a < s.len() {
            assert(n[a] == s[a]);
            assert(keyed_map(s).contains_key(s[a].0));
        } else if b < s.len() {
            assert(n[b] == s[b]);
            assert(keyed_map(s).contains_key(s[b].0));
        }
    }
}

/// Removing the entry at a position removes its name from the map.
pub proof fn lemma_keyed_remove<K, V>(s: Seq<(K, V)>, i: int)
    requires
        keys_distinct(s),
        0 <= i < s.len(),
    ensures
        keyed_map(s.remove(i)) == keyed_map(s).remove(s[i].0),
        keys_distinct(s.remove(i)),
{
    let r = s.remove(i);
    lemma_keyed_lookup(s);
    assert forall|a: int, b: int| 0 <= a < r.len() && 0 <= b < r.len() && a != b implies (#[trigger] r[a]).0 != (#[trigger] r[b]).0 by {
        let oa = if a < i { a } else { a + 1 };
        let ob = if b < i { b } else { b + 1 };
        assert(r[a] == s[oa]);
        assert(r[b] == s[ob]);
    }
    lemma_keyed_lookup(r);
    let m = keyed_map(s).remove(s[i].0);
    assert forall|k: K| #[trigger] keyed_map(r).dom().contains(k) <==> m.dom().contains(k) by {
        if keyed_map(r).contains_key(k) {
            let j = choose|j: int| 0 <= j < r.len() && (#[trigger] r[j]).0 == k;
            let oj = if j < i { j } else { j + 1 };
            assert(r[j] == s[oj]);
            assert(keyed_map(s).contains_key(s[oj].0));
        }
        if m.contains_key(k) {
            let j = choose|j: int| 0 <= j < s.len() && (#[trigger] s[j]).0 == k;
            assert(j != i);
            let nj = if j < i { j } else { j - 1 };
            assert(r[nj] == s[j]);
            assert(keyed_map(r).contains_key(r[nj].0));
        }
    }
    assert forall|k: K| #[trigger] keyed_map(r).dom().contains(k) implies keyed_map(r)[k] == m[k] by {
        let j = choose|j: int| 0 <= j < r.len() && (#[trigger] r[j]).0 == k;
        let oj = if j < i { j } else { j + 1 };
        assert(r[j] == s[oj]);
        assert(keyed_map(s).contains_key(s[oj].0));
    }
    assert(keyed_map(r) =~= m);
}

/// The position of the entry named `key`, if any.
pub fn find_key<V>(items: &Vec<(String, V)>, key: &str) -> (r: Option<usize>)
    requires
        keys_distinct(keyed_view(items@)),
    ensures
        r matches Some(i) ==> i < items@.len() && items@[i as int].0@ == key@,
        r is None <==> !keyed_map(keyed_view(items@)).contains_key(key@),
{
    let ghost s = keyed_view(items@);
    proof {
        lemma_keyed_lookup(s);
    }
    let mut i: usize = 0;
    while i < items.len()
        invariant
            s == keyed_view(items@),
            keys_distinct(s),
            i <= items@.len(),
            forall|j: int| 0 <= j < i ==> (#[trigger] s[j]).0 != key@,
        decreases items@.len() - i,
    {
        assert(s[i as int].0 == items@[i as int].0@);
        if str_eq(items[i].0.as_str(), key) {
            proof {
                lemma_keyed_lookup(s);
                assert(keyed_map(s).contains_key(s[i as int].0));
            }
            return Some(i);
        }
        i = i + 1;
    }
    proof {
        if keyed_map(s).contains_key(key@) {
            let j = choose|j: int| 0 <= j < s.len() && (#[trigger] s[j]).0 == key@;
        }
    }
    None
}

} // verus!
