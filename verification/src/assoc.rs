//! Association lists from job keys to payloads, read as finite maps.
//!
//! Both the registry state and the result mapping keep their entries as a
//! vector of key–payload pairs with pairwise distinct keys; `assoc_map` is the
//! map such a vector denotes, and the lemmas here relate positions in the
//! vector to lookups in the map.

use vstd::prelude::*;

verus! {

/// The finite map denoted by an association list, with each payload read
/// through `f`. A key that occurs twice denotes its last occurrence; the
/// containers of this crate keep keys distinct, so the case never arises
/// for them.
pub open spec fn assoc_map<T, D>(s: Seq<(String, T)>, f: spec_fn(T) -> D) -> Map<Seq<char>, D>
    decreases s.len(),
{
    if s.len() == 0 {
        Map::empty()
    } else {
        assoc_map(s.drop_last(), f).insert(s.last().0@, f(s.last().1))
    }
}

/// Pairwise distinct keys.
pub open spec fn unique_keys<T>(s: Seq<(String, T)>) -> bool {
    forall|i: int, j: int| 0 <= i < j < s.len() ==> s[i].0@ != s[j].0@
}

/// The position of the last occurrence of key `k` in `s`, or `-1` if `k` does
/// not occur.
pub open spec fn key_index<T>(s: Seq<(String, T)>, k: Seq<char>) -> int
    decreases s.len(),
{
    if s.len() == 0 {
        -1
    } else if s.last().0@ == k {
        s.len() - 1
    } else {
        key_index(s.drop_last(), k)
    }
}

/// A lookup in `assoc_map(s, f)` agrees with the occurrence of the key in `s`:
/// an absent key is absent from the map, and a present key maps to the payload
/// at its last occurrence.
pub proof fn lemma_assoc_map_lookup<T, D>(s: Seq<(String, T)>, f: spec_fn(T) -> D, k: Seq<char>)
    ensures
        key_index(s, k) == -1 ==> !assoc_map(s, f).contains_key(k),
        key_index(s, k) == -1 ==> forall|j: int| 0 <= j < s.len() ==> s[j].0@ != k,
        key_index(s, k) != -1 ==> 0 <= key_index(s, k) < s.len() && s[key_index(s, k)].0@ == k
            && assoc_map(s, f).contains_key(k) && assoc_map(s, f)[k] == f(s[key_index(s, k)].1),
    decreases s.len(),
{
    if s.len() == 0 {
    } else {
        let s0 = s.drop_last();
        lemma_assoc_map_lookup(s0, f, k);
        assert(forall|j: int| 0 <= j < s0.len() ==> s[j] == s0[j]);
        assert(s.last() == s[s.len() - 1]);
    }
}

/// An association list with distinct keys denotes a map with exactly one entry
/// per element.
pub proof fn lemma_assoc_map_len<T, D>(s: Seq<(String, T)>, f: spec_fn(T) -> D)
    requires
        unique_keys(s),
    ensures
        assoc_map(s, f).dom().finite(),
        assoc_map(s, f).dom().len() == s.len(),
    decreases s.len(),
{
    if s.len() == 0 {
    } else {
        let s0 = s.drop_last();
        assert(forall|j: int| 0 <= j < s0.len() ==> s[j] == s0[j]);
        assert(unique_keys(s0));
        lemma_assoc_map_len(s0, f);
        lemma_assoc_map_lookup(s0, f, s.last().0@);
        if key_index(s0, s.last().0@) != -1 {
            let i = key_index(s0, s.last().0@);
            assert(s[i].0@ == s[s.len() - 1].0@);
            assert(false);
        }
        assert(!assoc_map(s0, f).contains_key(s.last().0@));
    }
}

} // verus!
