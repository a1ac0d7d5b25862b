//! Sequences of records with a key field, read as maps from key to record.
use vstd::prelude::*;

verus! {

/// The map from key to record that a sequence stands for: a later record
/// overrides an earlier one with the same key.
pub open spec fn keyed_map<K, V>(s: Seq<V>, key: spec_fn(V) -> K) -> Map<K, V>
    decreases s.len(),
{
    if s.len() == 0 {
        Map::empty()
    } else {
        keyed_map(s.drop_last(), key).insert(key(s.last()), s.last())
    }
}

/// No two records of the sequence share a key.
pub open spec fn keys_unique<K, V>(s: Seq<V>, key: spec_fn(V) -> K) -> bool {
    forall|i: int, j: int| 0 <= i < j < s.len() ==> key(s[i]) != key(s[j])
}

pub proof fn lemma_keyed_map_dom<K, V>(s: Seq<V>, key: spec_fn(V) -> K, k: K)
    ensures
        keyed_map(s, key).contains_key(k) <==> exists|i: int| 0 <= i < s.len() && key(s[i]) == k,
    decreases s.len(),
{
    if s.len() > 0 {
        let p = s.drop_last();
        lemma_keyed_map_dom(p, key, k);
        if keyed_map(s, key).contains_key(k) && key(s.last()) != k {
            let i = choose|i: int| 0 <= i < p.len() && key(p[i]) == k;
            assert(key(s[i]) == k);
        }
        if exists|i: int| 0 <= i < s.len() && key(s[i]) == k {
            let i = choose|i: int| 0 <= i < s.len() && key(s[i]) == k;
            if i < s.len() - 1 {
                assert(key(p[i]) == k);
            }
        }
    }
}

pub proof fn lemma_keyed_map_value_key<K, V>(s: Seq<V>, key: spec_fn(V) -> K, k: K)
    requires
        keyed_map(s, key).contains_key(k),
    ensures
        key(keyed_map(s, key)[k]) == k,
    decreases s.len(),
{
    if s.len() > 0 && key(s.last()) != k {
        lemma_keyed_map_value_key(s.drop_last(), key, k);
    }
}

pub proof fn lemma_keyed_map_index<K, V>(s: Seq<V>, key: spec_fn(V) -> K, i: int)
    requires
        keys_unique(s, key),
        0 <= i < s.len(),
    ensures
        keyed_map(s, key).contains_key(key(s[i])),
        keyed_map(s, key)[key(s[i])] == s[i],
    decreases s.len(),
{
    if i < s.len() - 1 {
        let p = s.drop_last();
        assert(p[i] == s[i]);
        lemma_keyed_map_index(p, key, i);
    }
}

pub proof fn lemma_keyed_map_push<K, V>(s: Seq<V>, key: spec_fn(V) -> K, v: V)
    ensures
        keyed_map(s.push(v), key) == keyed_map(s, key).insert(key(v), v),
{
    assert(s.push(v).drop_last() =~= s);
}

pub proof fn lemma_keys_unique_push<K, V>(s: Seq<V>, key: spec_fn(V) -> K, v: V)
    requires
        keys_unique(s, key),
        !keyed_map(s, key).contains_key(key(v)),
    ensures
        keys_unique(s.push(v), key),
{
    assert forall|i: int, j: int| 0 <= i < j < s.len() + 1 implies key(s.push(v)[i]) != key(
        s.push(v)[j],
    ) by {
        if j == s.len() {
            lemma_keyed_map_dom(s, key, key(v));
            assert(key(s[i]) != key(v));
        }
    }
}

pub proof fn lemma_keyed_map_update<K, V>(s: Seq<V>, key: spec_fn(V) -> K, i: int, v: V)
    requires
        keys_unique(s, key),
        0 <= i < s.len(),
        key(v) == key(s[i]),
    ensures
        keyed_map(s.update(i, v), key) == keyed_map(s, key).insert(key(v), v),
        keys_unique(s.update(i, v), key),
    decreases s.len(),
{
    let t = s.update(i, v);
    let p = s.drop_last();
    if i == s.len() - 1 {
        assert(t.drop_last() =~= p);
    } else {
        assert(t.drop_last() =~= p.update(i, v));
        lemma_keyed_map_update(p, key, i, v);
        assert(key(s.last()) != key(v));
        assert(keyed_map(t, key) =~= keyed_map(s, key).insert(key(v), v));
    }
}

pub proof fn lemma_keyed_map_len<K, V>(s: Seq<V>, key: spec_fn(V) -> K)
    requires
        keys_unique(s, key),
    ensures
        keyed_map(s, key).dom().finite(),
        keyed_map(s, key).dom().len() == s.len(),
    decreases s.len(),
{
    if s.len() > 0 {
        let p = s.drop_last();
        lemma_keyed_map_len(p, key);
        lemma_keyed_map_dom(p, key, key(s.last()));
        if keyed_map(p, key).contains_key(key(s.last())) {
            let i = choose|i: int| 0 <= i < p.len() && key(p[i]) == key(s.last());
            assert(key(s[i]) == key(s[s.len() - 1]));
        }
    }
}

} // verus!
