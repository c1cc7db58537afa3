//! Spec-level reasoning about association lists: sequences of key/value
//! pairs with unique `u64` keys, used as the model of every store in this
//! crate (participant records, per-community data).

use vstd::prelude::*;

verus! {

/// No key appears twice.
pub open spec fn spec_unique_keys<V>(s: Seq<(u64, V)>) -> bool {
    forall|i: int, j: int| 0 <= i < j < s.len() ==> (#[trigger] s[i]).0 != (#[trigger] s[j]).0
}

/// The value stored under `id`, if any: the entry of the unique index whose
/// key matches.
pub open spec fn spec_lookup<V>(s: Seq<(u64, V)>, id: u64) -> Option<V> {
    if exists|i: int| 0 <= i < s.len() && (#[trigger] s[i]).0 == id {
        Some(s[choose|i: int| 0 <= i < s.len() && (#[trigger] s[i]).0 == id].1)
    } else {
        None
    }
}

/// Under unique keys, a matching index pins the lookup result.
pub proof fn lemma_lookup_at<V>(s: Seq<(u64, V)>, id: u64, i: int)
    requires
        spec_unique_keys(s),
        0 <= i < s.len(),
        s[i].0 == id,
    ensures
        spec_lookup(s, id) == Some(s[i].1),
{
    let w = choose|j: int| 0 <= j < s.len() && (#[trigger] s[j]).0 == id;
    assert(0 <= w < s.len() && s[w].0 == id);
    if w != i {
        if w < i {
            assert(s[w].0 != s[i].0);
        } else {
            assert(s[i].0 != s[w].0);
        }
    }
}

/// Overwriting one entry's value changes that key's lookup to the new value,
/// leaves every other key's lookup alone, and keeps the keys unique.
pub proof fn lemma_lookup_after_update<V>(s: Seq<(u64, V)>, idx: int, key: u64, v: V)
    requires
        spec_unique_keys(s),
        0 <= idx < s.len(),
        s[idx].0 == key,
    ensures
        spec_unique_keys(s.update(idx, (key, v))),
        spec_lookup(s.update(idx, (key, v)), key) == Some(v),
        forall|x: u64|
            x != key ==> #[trigger] spec_lookup(s.update(idx, (key, v)), x) == spec_lookup(s, x),
{
    let s2 = s.update(idx, (key, v));
    assert(spec_unique_keys(s2));
    lemma_lookup_at(s2, key, idx);
    assert forall|x: u64| x != key implies #[trigger] spec_lookup(s2, x) == spec_lookup(s, x) by {
        if exists|i: int| 0 <= i < s.len() && (#[trigger] s[i]).0 == x {
            let i = choose|i: int| 0 <= i < s.len() && (#[trigger] s[i]).0 == x;
            assert(s2[i].0 == x);
            lemma_lookup_at(s, x, i);
            lemma_lookup_at(s2, x, i);
        } else {
            assert(forall|i: int| 0 <= i < s2.len() ==> (#[trigger] s2[i]).0 != x);
        }
    }
}

/// Appending an entry under a fresh key changes only that key's lookup and
/// keeps the keys unique.
pub proof fn lemma_lookup_after_push<V>(s: Seq<(u64, V)>, key: u64, v: V)
    requires
        spec_unique_keys(s),
        spec_lookup(s, key) is None,
    ensures
        spec_unique_keys(s.push((key, v))),
        spec_lookup(s.push((key, v)), key) == Some(v),
        forall|x: u64|
            x != key ==> #[trigger] spec_lookup(s.push((key, v)), x) == spec_lookup(s, x),
{
    let s2 = s.push((key, v));
    assert(forall|i: int| 0 <= i < s.len() ==> (#[trigger] s[i]).0 != key);
    assert(forall|i: int| 0 <= i < s.len() ==> (#[trigger] s2[i]) == s[i]);
    assert(s2[s.len() as int].0 == key);
    assert(spec_unique_keys(s2));
    lemma_lookup_at(s2, key, s.len() as int);
    assert forall|x: u64| x != key implies #[trigger] spec_lookup(s2, x) == spec_lookup(s, x) by {
        if exists|i: int| 0 <= i < s.len() && (#[trigger] s[i]).0 == x {
            let i = choose|i: int| 0 <= i < s.len() && (#[trigger] s[i]).0 == x;
            assert(s2[i].0 == x);
            lemma_lookup_at(s, x, i);
            lemma_lookup_at(s2, x, i);
        } else {
            assert(forall|i: int| 0 <= i < s2.len() ==> (#[trigger] s2[i]).0 != x);
        }
    }
}

} // verus!
