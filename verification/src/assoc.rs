//! Association lists keyed by strings: the storage behind the crate's
//! string-keyed parameter and context maps. Keys are kept distinct, so the
//! list denotes a finite map from key text to value.

use vstd::prelude::*;

verus! {

/// No key occurs twice in the list.
pub open spec fn keys_distinct<V>(s: Seq<(String, V)>) -> bool {
    forall|i: int, j: int|
        0 <= i < s.len() && 0 <= j < s.len() && i != j ==> #[trigger] s[i].0@ != #[trigger] s[j].0@
}

/// Some entry of the list has key text `k`.
pub open spec fn has_key<V>(s: Seq<(String, V)>, k: Seq<char>) -> bool {
    exists|i: int| 0 <= i < s.len() && #[trigger] s[i].0@ == k
}

/// The position of an entry with key text `k`.
pub open spec fn key_index<V>(s: Seq<(String, V)>, k: Seq<char>) -> int {
    choose|i: int| 0 <= i < s.len() && #[trigger] s[i].0@ == k
}

/// The finite map that the list denotes.
pub open spec fn assoc_map<V>(s: Seq<(String, V)>) -> Map<Seq<char>, V> {
    Map::new(|k: Seq<char>| has_key(s, k), |k: Seq<char>| s[key_index(s, k)].1)
}

/// With distinct keys, the entry holding a key is the one `key_index` picks.
pub proof fn lemma_key_index_unique<V>(s: Seq<(String, V)>, i: int)
    requires
        keys_distinct(s),
        0 <= i < s.len(),
    ensures
        has_key(s, s[i].0@),
        key_index(s, s[i].0@) == i,
{
    assert(has_key(s, s[i].0@));
    let j = key_index(s, s[i].0@);
    assert(s[j].0@ == s[i].0@);
}

/// Appending an entry with a fresh key extends the map by that key.
pub proof fn lemma_push_fresh<V>(s: Seq<(String, V)>, key: String, val: V)
    requires
        keys_distinct(s),
        !has_key(s, key@),
    ensures
        keys_distinct(s.push((key, val))),
        assoc_map(s.push((key, val))) == assoc_map(s).insert(key@, val),
{
    let t = s.push((key, val));
    assert forall|i: int, j: int|
        0 <= i < t.len() && 0 <= j < t.len() && i != j implies #[trigger] t[i].0@ != #[trigger] t[j].0@ by {
        if i < s.len() && j < s.len() {
            assert(t[i] == s[i] && t[j] == s[j]);
        } else if i < s.len() {
            assert(t[i] == s[i]);
        } else {
            assert(t[j] == s[j]);
        }
    }
    assert forall|k: Seq<char>| has_key(t, k) <==> (has_key(s, k) || k == key@) by {
        if has_key(t, k) {
            let i = key_index(t, k);
            if i < s.len() {
                assert(t[i] == s[i]);
            }
        }
        if has_key(s, k) {
            let i = key_index(s, k);
            assert(t[i] == s[i]);
        }
        if k == key@ {
            assert(t[s.len() as int].0@ == k);
        }
    }
    assert forall|k: Seq<char>| #[trigger] has_key(t, k) implies assoc_map(t)[k]
        == assoc_map(s).insert(key@, val)[k] by {
        let i = key_index(t, k);
        lemma_key_index_unique(t, i);
        if k == key@ {
            lemma_key_index_unique(t, s.len() as int);
        } else {
            let j = key_index(s, k);
            lemma_key_index_unique(s, j);
            assert(t[j] == s[j]);
            lemma_key_index_unique(t, j);
        }
    }
    assert(assoc_map(t) =~= assoc_map(s).insert(key@, val));
}

/// Overwriting the value of an existing entry updates the map at that key.
pub proof fn lemma_update_existing<V>(s: Seq<(String, V)>, j: int, key: String, val: V)
    requires
        keys_distinct(s),
        0 <= j < s.len(),
        s[j].0@ == key@,
    ensures
        keys_distinct(s.update(j, (key, val))),
        assoc_map(s.update(j, (key, val))) == assoc_map(s).insert(key@, val),
{
    let t = s.update(j, (key, val));
    assert forall|a: int, b: int|
        0 <= a < t.len() && 0 <= b < t.len() && a != b implies #[trigger] t[a].0@ != #[trigger] t[b].0@ by {
        assert(t[a].0@ == s[a].0@);
        assert(t[b].0@ == s[b].0@);
    }
    assert forall|k: Seq<char>| has_key(t, k) <==> has_key(s, k) by {
        if has_key(t, k) {
            let i = key_index(t, k);
            assert(t[i].0@ == s[i].0@);
        }
        if has_key(s, k) {
            let i = key_index(s, k);
            assert(t[i].0@ == s[i].0@);
        }
    }
    lemma_key_index_unique(s, j);
    assert forall|k: Seq<char>| #[trigger] has_key(t, k) implies assoc_map(t)[k]
        == assoc_map(s).insert(key@, val)[k] by {
        let i = key_index(t, k);
        lemma_key_index_unique(t, i);
        if k == key@ {
            lemma_key_index_unique(t, j);
        } else {
            assert(t[i] == s[i]);
            lemma_key_index_unique(s, i);
        }
    }
    assert(assoc_map(t) =~= assoc_map(s).insert(key@, val));
}

/// The position of the entry whose key equals `key`, if there is one.
pub fn assoc_position<V>(s: &Vec<(String, V)>, key: &String) -> (r: Option<usize>)
    ensures
        r is None <==> !has_key(s@, key@),
        r matches Some(i) ==> i < s@.len() && s@[i as int].0@ == key@,
{
    let mut i: usize = 0;
    while i < s.len()
        invariant
            i <= s@.len(),
            forall|j: int| 0 <= j < i ==> #[trigger] s@[j].0@ != key@,
        decreases s@.len() - i,
    {
        if s[i].0 == *key {
            return Some(i);
        }
        i = i + 1;
    }
    proof {
        if has_key(s@, key@) {
            let j = key_index(s@, key@);
            assert(s@[j].0@ == key@);
        }
    }
    None
}

/// Sets `key` to `val`: overwrites the entry holding `key`, or appends one.
pub fn assoc_insert<V>(s: &mut Vec<(String, V)>, key: String, val: V)
    requires
        keys_distinct(old(s)@),
    ensures
        keys_distinct(final(s)@),
        assoc_map(final(s)@) == assoc_map(old(s)@).insert(key@, val),
{
    match assoc_position(s, &key) {
        Some(i) => {
            proof {
                lemma_update_existing(s@, i as int, key, val);
            }
            s.set(i, (key, val));
        },
        None => {
            proof {
                lemma_push_fresh(s@, key, val);
            }
            s.push((key, val));
        },
    }
}

} // verus!
