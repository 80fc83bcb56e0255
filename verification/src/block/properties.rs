//! Block state property lists: the `waterlogged` property.

use vstd::prelude::*;
use crate::block::rotation::props_view;
use crate::text::str_eq;

verus! {

/// The `waterlogged=true` entry.
pub open spec fn waterlogged_entry() -> (Seq<char>, Seq<char>) {
    ("waterlogged"@, "true"@)
}

/// The list with its first `waterlogged` entry set to `true` (with
/// `waterlogged=true` appended when it has none).
pub open spec fn set_waterlogged(s: Seq<(Seq<char>, Seq<char>)>) -> Seq<(Seq<char>, Seq<char>)>
    decreases s.len(),
{
    if s.len() == 0 {
        seq![waterlogged_entry()]
    } else if s[0].0 == "waterlogged"@ {
        s.update(0, waterlogged_entry())
    } else {
        seq![s[0]] + set_waterlogged(s.skip(1))
    }
}

proof fn lemma_set_waterlogged(s: Seq<(Seq<char>, Seq<char>)>, p: int)
    requires
        0 <= p <= s.len(),
        forall|j: int| 0 <= j < p ==> s[j].0 != "waterlogged"@,
        p < s.len() ==> s[p].0 == "waterlogged"@,
    ensures
        p < s.len() ==> set_waterlogged(s) == s.update(p, waterlogged_entry()),
        p == s.len() ==> set_waterlogged(s) == s.push(waterlogged_entry()),
    decreases s.len(),
{
    if s.len() > 0 && p > 0 {
        let t = s.skip(1);
        assert forall|j: int| 0 <= j < p - 1 implies t[j].0 != "waterlogged"@ by {
            assert(t[j] == s[j + 1]);
        }
        if p < s.len() {
            assert(t[p - 1] == s[p]);
        }
        lemma_set_waterlogged(t, p - 1);
        if p < s.len() {
            assert(seq![s[0]] + t.update(p - 1, waterlogged_entry()) =~= s.update(p, waterlogged_entry()));
        } else {
            assert(seq![s[0]] + t.push(waterlogged_entry()) =~= s.push(waterlogged_entry()));
        }
    } else if s.len() == 0 {
        assert(seq![waterlogged_entry()] =~= s.push(waterlogged_entry()));
    }
}

/// Whether the list holds `waterlogged=true`.
pub fn is_waterlogged(props: &Vec<(String, String)>) -> (r: bool)
    ensures
        r == props_view(props@).contains(waterlogged_entry()),
{
    let ghost v = props_view(props@);
    let mut i: usize = 0;
    while i < props.len()
        invariant
            v == props_view(props@),
            i <= props@.len(),
            forall|j: int| 0 <= j < i ==> v[j] != waterlogged_entry(),
        decreases props@.len() - i,
    {
        assert(v[i as int] == (props@[i as int].0@, props@[i as int].1@));
        if str_eq(props[i].0.as_str(), "waterlogged") && str_eq(props[i].1.as_str(), "true") {
            assert(v.contains(v[i as int]));
            return true;
        }
        i = i + 1;
    }
    false
}

/// Whether some entry of the list has the key `waterlogged`.
pub open spec fn has_waterlogged_key(s: Seq<(Seq<char>, Seq<char>)>) -> bool {
    exists|j: int| 0 <= j < s.len() && (#[trigger] s[j]).0 == "waterlogged"@
}

/// The properties of the waterlogged version of a block state with property
/// list `props` (`None` for a block without properties): its first
/// `waterlogged` entry set to `true`. There is none when the state is already
/// waterlogged or has no `waterlogged` property.
pub fn with_waterlogged(props: Option<&Vec<(String, String)>>) -> (r: Option<Vec<(String, String)>>)
    ensures
        r is None <==> (props is None || (props matches Some(p) && (props_view(p@).contains(
            waterlogged_entry(),
        ) || !has_waterlogged_key(props_view(p@))))),
        r matches Some(v) ==> props matches Some(p) && props_view(v@) == set_waterlogged(
            props_view(p@),
        ),
{
    let p = match props {
        Some(p) => p,
        None => return None,
    };
    if is_waterlogged(p) {
        return None;
    }
    let ghost v = props_view(p@);
    let mut i: usize = 0;
    while i < p.len()
        invariant
            v == props_view(p@),
            i <= p@.len(),
            forall|j: int| 0 <= j < i ==> v[j].0 != "waterlogged"@,
        ensures
            i <= p@.len(),
            forall|j: int| 0 <= j < i ==> v[j].0 != "waterlogged"@,
            i < p@.len() ==> v[i as int].0 == "waterlogged"@,
        decreases p@.len() - i,
    {
        assert(v[i as int] == (p@[i as int].0@, p@[i as int].1@));
        if str_eq(p[i].0.as_str(), "waterlogged") {
            break;
        }
        i = i + 1;
    }
    if i == p.len() {
        assert(!has_waterlogged_key(v));
        return None;
    }
    assert(has_waterlogged_key(v)) by {
        assert(v[i as int].0 == "waterlogged"@);
    }
    proof {
        lemma_set_waterlogged(v, i as int);
    }
    let mut out: Vec<(String, String)> = Vec::new();
    let mut k: usize = 0;
    while k < p.len()
        invariant
            v == props_view(p@),
            k <= p@.len(),
            i < p@.len(),
            props_view(out@) == v.update(i as int, waterlogged_entry()).take(k as int),
        decreases p@.len() - k,
    {
        let ghost before = out@;
        if k == i {
            out.push((String::from_str("waterlogged"), String::from_str("true")));
        } else {
            out.push((String::from_str(p[k].0.as_str()), String::from_str(p[k].1.as_str())));
        }
        proof {
            let target = v.update(i as int, waterlogged_entry());
            assert(props_view(out@) =~= props_view(before).push(target[k as int]));
            assert(target.take(k + 1) =~= target.take(k as int).push(target[k as int]));
        }
        k = k + 1;
    }
    assert(v.update(i as int, waterlogged_entry()).take(p@.len() as int) =~= v.update(
        i as int,
        waterlogged_entry(),
    ));
    Some(out)
}

} // verus!
