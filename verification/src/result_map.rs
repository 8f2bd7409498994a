//! The result mapping of one request: job key to projected stage views.
//!
//! Built fresh per request and owned by the single response it serves; it
//! holds deep copies only, never references into the registry.

use vstd::prelude::*;

use crate::assoc::assoc_map;
use crate::assoc::key_index;
use crate::assoc::lemma_assoc_map_len;
use crate::assoc::lemma_assoc_map_lookup;
use crate::assoc::unique_keys;
use crate::stage::StageData;
use crate::stage::StageView;
use crate::stage::views_data;

verus! {

/// The map denoted by a sequence of result entries.
pub open spec fn view_entries_map(s: Seq<(String, Vec<StageView>)>) -> Map<
    Seq<char>,
    Seq<StageData>,
> {
    assoc_map(s, |v: Vec<StageView>| views_data(v@))
}

/// A mapping from job key to the ordered stage views of that job, with each
/// key present at most once. Its abstract value is a finite map from key to
/// stage data.
pub struct ProgressMap {
    entries: Vec<(String, Vec<StageView>)>,
}

impl View for ProgressMap {
    type V = Map<Seq<char>, Seq<StageData>>;

    closed spec fn view(&self) -> Map<Seq<char>, Seq<StageData>> {
        view_entries_map(self.entries@)
    }
}

impl ProgressMap {
    #[verifier::type_invariant]
    spec fn wf(self) -> bool {
        unique_keys(self.entries@)
    }

    /// An empty mapping.
    pub fn new() -> (r: ProgressMap)
        ensures
            r@ == Map::<Seq<char>, Seq<StageData>>::empty(),
    {
        ProgressMap { entries: Vec::new() }
    }

    /// Adds an entry for `key` unless the mapping already has one; a duplicate
    /// key leaves the mapping unchanged.
    pub fn insert(&mut self, key: String, stages: Vec<StageView>)
        ensures
            final(self)@ == if old(self)@.contains_key(key@) {
                old(self)@
            } else {
                old(self)@.insert(key@, views_data(stages@))
            },
    {
        proof {
            use_type_invariant(&*self);
        }
        let mut i: usize = 0;
        while i < self.entries.len()
            invariant
                i <= self.entries@.len(),
                forall|j: int| 0 <= j < i ==> self.entries@[j].0@ != key@,
            decreases self.entries@.len() - i,
        {
            if self.entries[i].0 == key {
                proof {
                    lemma_assoc_map_lookup(
                        self.entries@,
                        |v: Vec<StageView>| views_data(v@),
                        key@,
                    );
                    if key_index(self.entries@, key@) == -1 {
                        assert(self.entries@[i as int].0@ != key@);
                        assert(false);
                    }
                    assert(self@.contains_key(key@));
                }
                return ;
            }
            i = i + 1;
        }
        proof {
            lemma_assoc_map_lookup(self.entries@, |v: Vec<StageView>| views_data(v@), key@);
            if key_index(self.entries@, key@) != -1 {
                let ki = key_index(self.entries@, key@);
                assert(self.entries@[ki].0@ != key@);
                assert(false);
            }
            assert(!self@.contains_key(key@));
        }
        let mut entries: Vec<(String, Vec<StageView>)> = Vec::new();
        std::mem::swap(&mut entries, &mut self.entries);
        entries.push((key, stages));
        self.entries = entries;
        proof {
            assert(self.entries@.drop_last() =~= old(self).entries@);
        }
    }

    /// Looks up the stage views recorded for `key`.
    pub fn get(&self, key: &String) -> (r: Option<&Vec<StageView>>)
        ensures
            match r {
                Some(v) => self@.contains_key(key@) && views_data(v@) == self@[key@],
                None => !self@.contains_key(key@),
            },
    {
        let mut i: usize = 0;
        while i < self.entries.len()
            invariant
                i <= self.entries@.len(),
                forall|j: int| 0 <= j < i ==> self.entries@[j].0@ != key@,
            decreases self.entries@.len() - i,
        {
            if self.entries[i].0 == *key {
                proof {
                    use_type_invariant(&*self);
                    lemma_assoc_map_lookup(
                        self.entries@,
                        |v: Vec<StageView>| views_data(v@),
                        key@,
                    );
                    let ki = key_index(self.entries@, key@);
                    if ki == -1 {
                        assert(self.entries@[i as int].0@ != key@);
                        assert(false);
                    }
                    if ki < i {
                        assert(self.entries@[ki].0@ != key@);
                        assert(false);
                    }
                    if ki > i {
                        assert(self.entries@[i as int].0@ != self.entries@[ki].0@);
                        assert(false);
                    }
                }
                return Some(&self.entries[i].1);
            }
            i = i + 1;
        }
        proof {
            lemma_assoc_map_lookup(self.entries@, |v: Vec<StageView>| views_data(v@), key@);
            if key_index(self.entries@, key@) != -1 {
                let ki = key_index(self.entries@, key@);
                assert(self.entries@[ki].0@ != key@);
                assert(false);
            }
        }
        None
    }

    /// The number of jobs the mapping holds.
    pub fn len(&self) -> (n: usize)
        ensures
            n == self@.dom().len(),
    {
        proof {
            use_type_invariant(&*self);
            lemma_assoc_map_len(self.entries@, |v: Vec<StageView>| views_data(v@));
        }
        self.entries.len()
    }

    /// The entries of the mapping, each key paired with its stage views.
    pub fn entries(&self) -> (r: &Vec<(String, Vec<StageView>)>)
        ensures
            unique_keys(r@),
            view_entries_map(r@) == self@,
    {
        proof {
            use_type_invariant(&*self);
        }
        &self.entries
    }
}

} // verus!
