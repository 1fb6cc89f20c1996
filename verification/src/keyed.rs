//! Key-value tables kept as sequences of entries with distinct keys, and the map each one
//! stands for.
use vstd::prelude::*;

verus! {

/// No two entries have the same key.
pub open spec fn unique_keys<K, V>(s: Seq<(K, V)>) -> bool {
    forall|i: int, j: int| 0 <= i < j < s.len() ==> s[i].0 != s[j].0
}

/// Whether some entry has key `k`.
pub open spec fn has_key<K, V>(s: Seq<(K, V)>, k: K) -> bool {
    exists|j: int| 0 <= j < s.len() && s[j].0 == k
}

/// The map from each key to the value of its entry.
pub open spec fn keyed_map<K, V>(s: Seq<(K, V)>) -> Map<K, V> {
    Map::new(
        |k: K| has_key(s, k),
        |k: K| s[choose|j: int| 0 <= j < s.len() && s[j].0 == k].1,
    )
}

/// With distinct keys, the map gives each entry's key that entry's value.
pub proof fn lemma_keyed_map_at<K, V>(s: Seq<(K, V)>, j: int)
    requires
        unique_keys(s),
        0 <= j < s.len(),
    ensures
        keyed_map(s).contains_key(s[j].0),
        keyed_map(s)[s[j].0] == s[j].1,
{
    let k = s[j].0;
    assert(has_key(s, k));
    let c = choose|c: int| 0 <= c < s.len() && s[c].0 == k;
    if c != j {
        if c < j {
            assert(s[c].0 != s[j].0);
        } else {
            assert(s[j].0 != s[c].0);
        }
    }
}

/// Adding an entry with a new key adds that key to the map.
pub proof fn lemma_keyed_map_push<K, V>(s: Seq<(K, V)>, k: K, v: V)
    requires
        unique_keys(s),
        !has_key(s, k),
    ensures
        unique_keys(s.push((k, v))),
        keyed_map(s.push((k, v))) == keyed_map(s).insert(k, v),
{
    let t = s.push((k, v));
    assert forall|i: int, j: int| 0 <= i < j < t.len() implies t[i].0 != t[j].0 by {
        if j == s.len() {
            assert(s[i].0 != k);
        }
    }
    assert forall|key: K| #[trigger] keyed_map(t).contains_key(key) <==> keyed_map(s).insert(
        k,
        v,
    ).contains_key(key) by {
        if has_key(t, key) && key != k {
            let j = choose|j: int| 0 <= j < t.len() && t[j].0 == key;
            assert(s[j].0 == key);
        }
        if has_key(s, key) {
            let j = choose|j: int| 0 <= j < s.len() && s[j].0 == key;
            assert(t[j].0 == key);
        }
        if key == k {
            assert(t[s.len() as int].0 == key);
        }
    }
    assert forall|key: K| keyed_map(t).contains_key(key) implies #[trigger] keyed_map(t)[key] == keyed_map(
        s,
    ).insert(k, v)[key] by {
        let j = choose|j: int| 0 <= j < t.len() && t[j].0 == key;
        lemma_keyed_map_at(t, j);
        if key != k {
            assert(j < s.len());
            lemma_keyed_map_at(s, j);
        }
    }
    assert(keyed_map(t) =~= keyed_map(s).insert(k, v));
}

/// Replacing the entry at position `j` by one with the same key updates that key's value.
pub proof fn lemma_keyed_map_update<K, V>(s: Seq<(K, V)>, j: int, v: V)
    requires
        unique_keys(s),
        0 <= j < s.len(),
    ensures
        unique_keys(s.update(j, (s[j].0, v))),
        keyed_map(s.update(j, (s[j].0, v))) == keyed_map(s).insert(s[j].0, v),
{
    let k = s[j].0;
    let t = s.update(j, (k, v));
    assert forall|a: int, b: int| 0 <= a < b < t.len() implies t[a].0 != t[b].0 by {
        assert(s[a].0 != s[b].0);
    }
    assert forall|key: K| #[trigger] keyed_map(t).contains_key(key) <==> keyed_map(s).insert(
        k,
        v,
    ).contains_key(key) by {
        if has_key(t, key) {
            let i = choose|i: int| 0 <= i < t.len() && t[i].0 == key;
            assert(s[i].0 == key);
        }
        if has_key(s, key) {
            let i = choose|i: int| 0 <= i < s.len() && s[i].0 == key;
            assert(t[i].0 == key);
        }
        if key == k {
            assert(t[j].0 == key);
        }
    }
    assert forall|key: K| keyed_map(t).contains_key(key) implies #[trigger] keyed_map(t)[key] == keyed_map(
        s,
    ).insert(k, v)[key] by {
        let i = choose|i: int| 0 <= i < t.len() && t[i].0 == key;
        lemma_keyed_map_at(t, i);
        if key != k {
            lemma_keyed_map_at(s, i);
        }
    }
    assert(keyed_map(t) =~= keyed_map(s).insert(k, v));
}

/// Removing the entry at position `j` removes its key from the map.
pub proof fn lemma_keyed_map_remove<K, V>(s: Seq<(K, V)>, j: int)
    requires
        unique_keys(s),
        0 <= j < s.len(),
    ensures
        unique_keys(s.remove(j)),
        keyed_map(s.remove(j)) == keyed_map(s).remove(s[j].0),
{
    let k = s[j].0;
    let t = s.remove(j);
    assert forall|a: int, b: int| 0 <= a < b < t.len() implies t[a].0 != t[b].0 by {
        let a2 = if a < j { a } else { a + 1 };
        let b2 = if b < j { b } else { b + 1 };
        assert(s[a2].0 != s[b2].0);
    }
    assert forall|key: K| #[trigger] keyed_map(t).contains_key(key) <==> keyed_map(s).remove(
        k,
    ).contains_key(key) by {
        if has_key(t, key) {
            let i = choose|i: int| 0 <= i < t.len() && t[i].0 == key;
            let i2 = if i < j { i } else { i + 1 };
            assert(s[i2].0 == key);
            assert(s[i2].0 != s[j].0 || i2 == j);
        }
        if has_key(s, key) && key != k {
            let i = choose|i: int| 0 <= i < s.len() && s[i].0 == key;
            if i < j {
                assert(t[i].0 == key);
            } else {
                assert(i != j);
                assert(t[i - 1].0 == key);
            }
        }
    }
    assert forall|key: K| keyed_map(t).contains_key(key) implies #[trigger] keyed_map(t)[key] == keyed_map(
        s,
    ).remove(k)[key] by {
        let i = choose|i: int| 0 <= i < t.len() && t[i].0 == key;
        lemma_keyed_map_at(t, i);
        let i2 = if i < j { i } else { i + 1 };
        lemma_keyed_map_at(s, i2);
    }
    assert(keyed_map(t) =~= keyed_map(s).remove(k));
}

/// The empty table stands for the empty map.
pub proof fn lemma_keyed_map_empty<K, V>()
    ensures
        unique_keys(Seq::<(K, V)>::empty()),
        keyed_map(Seq::<(K, V)>::empty()) == Map::<K, V>::empty(),
{
    assert(keyed_map(Seq::<(K, V)>::empty()) =~= Map::<K, V>::empty());
}

} // verus!
