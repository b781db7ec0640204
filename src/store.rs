//! Records kept in insertion order and addressed by a key derived from each
//! record. The abstract view of such a store is a map from key to record;
//! keys are unique, so creating a record under a used key must be refused.
use vstd::prelude::*;

verus! {

/// No two records of `s` share a key.
pub open spec fn keys_unique<K, V>(s: Seq<V>, key: spec_fn(V) -> K) -> bool {
    forall|i: int, j: int|
        0 <= i < s.len() && 0 <= j < s.len() && #[trigger] key(s[i]) == #[trigger] key(s[j])
            ==> i == j
}

/// The map from each key in use to the record stored under it.
pub open spec fn index_map<K, V>(s: Seq<V>, key: spec_fn(V) -> K) -> Map<K, V> {
    Map::new(
        |k: K| exists|i: int| 0 <= i < s.len() && #[trigger] key(s[i]) == k,
        |k: K| s[choose|i: int| 0 <= i < s.len() && #[trigger] key(s[i]) == k],
    )
}

/// Each record of a store with unique keys is what its key maps to.
pub proof fn lemma_index_map_at<K, V>(s: Seq<V>, key: spec_fn(V) -> K, i: int)
    requires
        keys_unique(s, key),
        0 <= i < s.len(),
    ensures
        index_map(s, key).contains_key(key(s[i])),
        index_map(s, key)[key(s[i])] == s[i],
{
    let k = key(s[i]);
    assert(0 <= i < s.len() && key(s[i]) == k);
    let c = choose|c: int| 0 <= c < s.len() && #[trigger] key(s[c]) == k;
    assert(c == i);
}

/// Appending a record under a fresh key inserts it into the map.
pub proof fn lemma_index_map_push<K, V>(s: Seq<V>, key: spec_fn(V) -> K, v: V)
    requires
        keys_unique(s, key),
        !index_map(s, key).contains_key(key(v)),
    ensures
        keys_unique(s.push(v), key),
        index_map(s.push(v), key) == index_map(s, key).insert(key(v), v),
{
    let t = s.push(v);
    assert forall|i: int, j: int|
        0 <= i < t.len() && 0 <= j < t.len() && #[trigger] key(t[i]) == #[trigger] key(t[j])
            implies i == j by {
        if i < s.len() && j < s.len() {
            assert(key(s[i]) == key(s[j]));
        } else if i < s.len() {
            assert(key(s[i]) == key(v));
        } else if j < s.len() {
            assert(key(s[j]) == key(v));
        }
    }
    let m = index_map(s, key);
    let n = index_map(t, key);
    assert forall|k: K| #[trigger] n.contains_key(k) <==> m.insert(key(v), v).contains_key(k) by {
        if n.contains_key(k) && k != key(v) {
            let i = choose|i: int| 0 <= i < t.len() && #[trigger] key(t[i]) == k;
            assert(0 <= i < s.len() && key(s[i]) == k);
        }
        if m.contains_key(k) {
            let i = choose|i: int| 0 <= i < s.len() && #[trigger] key(s[i]) == k;
            assert(0 <= i < t.len() && key(t[i]) == k);
        }
        if k == key(v) {
            assert(0 <= s.len() < t.len() && key(t[s.len() as int]) == k);
        }
    }
    assert forall|k: K| #[trigger] n.contains_key(k) implies n[k] == m.insert(key(v), v)[k] by {
        let i = choose|i: int| 0 <= i < t.len() && #[trigger] key(t[i]) == k;
        lemma_index_map_at(t, key, i);
        if i < s.len() {
            lemma_index_map_at(s, key, i);
        }
    }
    assert(n =~= m.insert(key(v), v));
}

/// Replacing a record by one with the same key overwrites it in the map.
pub proof fn lemma_index_map_update<K, V>(s: Seq<V>, key: spec_fn(V) -> K, i: int, v: V)
    requires
        keys_unique(s, key),
        0 <= i < s.len(),
        key(v) == key(s[i]),
    ensures
        keys_unique(s.update(i, v), key),
        index_map(s.update(i, v), key) == index_map(s, key).insert(key(v), v),
{
    let t = s.update(i, v);
    assert forall|a: int, b: int|
        0 <= a < t.len() && 0 <= b < t.len() && #[trigger] key(t[a]) == #[trigger] key(t[b])
            implies a == b by {
        assert(key(t[a]) == key(s[a]));
        assert(key(t[b]) == key(s[b]));
    }
    let m = index_map(s, key);
    let n = index_map(t, key);
    assert forall|k: K| #[trigger] n.contains_key(k) <==> m.insert(key(v), v).contains_key(k) by {
        if n.contains_key(k) {
            let a = choose|a: int| 0 <= a < t.len() && #[trigger] key(t[a]) == k;
            assert(key(t[a]) == key(s[a]));
        }
        if m.contains_key(k) {
            let a = choose|a: int| 0 <= a < s.len() && #[trigger] key(s[a]) == k;
            assert(key(t[a]) == key(s[a]));
        }
    }
    assert forall|k: K| #[trigger] n.contains_key(k) implies n[k] == m.insert(key(v), v)[k] by {
        let a = choose|a: int| 0 <= a < t.len() && #[trigger] key(t[a]) == k;
        lemma_index_map_at(t, key, a);
        if a != i {
            lemma_index_map_at(s, key, a);
        }
    }
    assert(n =~= m.insert(key(v), v));
}

/// Compares two 32-byte values for equality.
pub fn bytes_eq(a: &[u8; 32], b: &[u8; 32]) -> (r: bool)
    ensures
        r == (*a == *b),
{
    let mut i: usize = 0;
    while i < 32
        invariant
            0 <= i <= 32,
            forall|j: int| 0 <= j < i ==> a[j] == b[j],
        decreases 32 - i,
    {
        if a[i] != b[i] {
            return false;
        }
        i += 1;
    }
    assert(*a =~= *b);
    true
}

} // verus!
