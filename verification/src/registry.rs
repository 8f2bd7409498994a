//! The registry state — the mapping from job key to stage records that the
//! shared registry protects — and the snapshot selector over it.
//!
//! The selector is a pure function of one registry state: the state a request
//! sees is whatever the registry held at the instant its lock was taken.

use vstd::prelude::*;

use crate::assoc::assoc_map;
use crate::assoc::key_index;
use crate::assoc::lemma_assoc_map_len;
use crate::assoc::lemma_assoc_map_lookup;
use crate::assoc::unique_keys;
use crate::result_map::ProgressMap;
use crate::stage::StageData;
use crate::stage::StageRecord;
use crate::stage::project_stages;
use crate::stage::stages_data;

verus! {

/// The map denoted by a sequence of registry entries.
pub open spec fn record_entries_map(s: Seq<(String, Vec<StageRecord>)>) -> Map<
    Seq<char>,
    Seq<StageData>,
> {
    assoc_map(s, |v: Vec<StageRecord>| stages_data(v@))
}

/// One observed state of the registry: a mapping from job key to the job's
/// ordered stage records, with each key present at most once. Its abstract
/// value is a finite map from key to stage data.
pub struct RegistryState {
    jobs: Vec<(String, Vec<StageRecord>)>,
}

impl View for RegistryState {
    type V = Map<Seq<char>, Seq<StageData>>;

    closed spec fn view(&self) -> Map<Seq<char>, Seq<StageData>> {
        record_entries_map(self.jobs@)
    }
}

impl RegistryState {
    #[verifier::type_invariant]
    spec fn wf(self) -> bool {
        unique_keys(self.jobs@)
    }

    /// A state tracking no jobs.
    pub fn new() -> (r: RegistryState)
        ensures
            r@ == Map::<Seq<char>, Seq<StageData>>::empty(),
    {
        RegistryState { jobs: Vec::new() }
    }

    /// Starts tracking a job under `key` unless one is already tracked; a
    /// duplicate key leaves the state unchanged.
    pub fn insert(&mut self, key: String, stages: Vec<StageRecord>)
        ensures
            final(self)@ == if old(self)@.contains_key(key@) {
                old(self)@
            } else {
                old(self)@.insert(key@, stages_data(stages@))
            },
    {
        proof {
            use_type_invariant(&*self);
        }
        let mut i: usize = 0;
        while i < self.jobs.len()
            invariant
                i <= self.jobs@.len(),
                forall|j: int| 0 <= j < i ==> self.jobs@[j].0@ != key@,
            decreases self.jobs@.len() - i,
        {
            if self.jobs[i].0 == key {
                proof {
                    lemma_assoc_map_lookup(
                        self.jobs@,
                        |v: Vec<StageRecord>| stages_data(v@),
                        key@,
                    );
                    if key_index(self.jobs@, key@) == -1 {
                        assert(self.jobs@[i as int].0@ != key@);
                        assert(false);
                    }
                    assert(self@.contains_key(key@));
                }
                return ;
            }
            i = i + 1;
        }
        proof {
            lemma_assoc_map_lookup(self.jobs@, |v: Vec<StageRecord>| stages_data(v@), key@);
            if key_index(self.jobs@, key@) != -1 {
                let ki = key_index(self.jobs@, key@);
                assert(self.jobs@[ki].0@ != key@);
                assert(false);
            }
            assert(!self@.contains_key(key@));
        }
        let mut jobs: Vec<(String, Vec<StageRecord>)> = Vec::new();
        std::mem::swap(&mut jobs, &mut self.jobs);
        jobs.push((key, stages));
        self.jobs = jobs;
        proof {
            assert(self.jobs@.drop_last() =~= old(self).jobs@);
        }
    }

    /// Looks up the stage records of the job tracked under `key`.
    pub fn get(&self, key: &String) -> (r: Option<&Vec<StageRecord>>)
        ensures
            match r {
                Some(v) => self@.contains_key(key@) && stages_data(v@) == self@[key@],
                None => !self@.contains_key(key@),
            },
    {
        let mut i: usize = 0;
        while i < self.jobs.len()
            invariant
                i <= self.jobs@.len(),
                forall|j: int| 0 <= j < i ==> self.jobs@[j].0@ != key@,
            decreases self.jobs@.len() - i,
        {
            if self.jobs[i].0 == *key {
                proof {
                    use_type_invariant(&*self);
                    lemma_assoc_map_lookup(
                        self.jobs@,
                        |v: Vec<StageRecord>| stages_data(v@),
                        key@,
                    );
                    let ki = key_index(self.jobs@, key@);
                    if ki == -1 {
                        assert(self.jobs@[i as int].0@ != key@);
                        assert(false);
                    }
                    if ki < i {
                        assert(self.jobs@[ki].0@ != key@);
                        assert(false);
                    }
                    if ki > i {
                        assert(self.jobs@[i as int].0@ != self.jobs@[ki].0@);
                        assert(false);
                    }
                }
                return Some(&self.jobs[i].1);
            }
            i = i + 1;
        }
        proof {
            lemma_assoc_map_lookup(self.jobs@, |v: Vec<StageRecord>| stages_data(v@), key@);
            if key_index(self.jobs@, key@) != -1 {
                let ki = key_index(self.jobs@, key@);
                assert(self.jobs@[ki].0@ != key@);
                assert(false);
            }
        }
        None
    }

    /// The number of jobs the state tracks.
    pub fn len(&self) -> (n: usize)
        ensures
            n == self@.dom().len(),
    {
        proof {
            use_type_invariant(&*self);
            lemma_assoc_map_len(self.jobs@, |v: Vec<StageRecord>| stages_data(v@));
        }
        self.jobs.len()
    }
}

/// The set of keys a request names, in whatever order and multiplicity.
pub open spec fn requested_set(keys: Seq<String>) -> Set<Seq<char>> {
    Set::new(|k: Seq<char>| exists|j: int| 0 <= j < keys.len() && (#[trigger] keys[j])@ == k)
}

/// What `select` returns for a key list and a registry state: the whole state
/// for an empty list, and otherwise the state restricted to the requested
/// keys — a key the registry does not track is simply absent from the result.
pub open spec fn select_model(
    keys: Seq<String>,
    registry: Map<Seq<char>, Seq<StageData>>,
) -> Map<Seq<char>, Seq<StageData>> {
    if keys.len() == 0 {
        registry
    } else {
        registry.restrict(requested_set(keys))
    }
}

/// Extending a key list by one key extends its key set by that key.
proof fn lemma_requested_set_take_step(keys: Seq<String>, i: int)
    requires
        0 <= i < keys.len(),
    ensures
        requested_set(keys.take(i + 1)) == requested_set(keys.take(i)).insert(keys[i]@),
{
    let a = requested_set(keys.take(i + 1));
    let b = requested_set(keys.take(i)).insert(keys[i]@);
    assert forall|k: Seq<char>| a.contains(k) implies b.contains(k) by {
        let j = choose|j: int|
            0 <= j < keys.take(i + 1).len() && (#[trigger] keys.take(i + 1)[j])@ == k;
        if j < i {
            assert((keys.take(i)[j])@ == k);
        } else {
            assert(k == keys[i]@);
        }
    };
    assert forall|k: Seq<char>| b.contains(k) implies a.contains(k) by {
        if k == keys[i]@ {
            assert((keys.take(i + 1)[i])@ == k);
        } else {
            let j = choose|j: int|
                0 <= j < keys.take(i).len() && (#[trigger] keys.take(i)[j])@ == k;
            assert((keys.take(i + 1)[j])@ == k);
        }
    };
    assert(a =~= b);
}

/// Selects the requested subset of a registry state, projecting every stage of
/// every selected job. An empty key list means "all tracked jobs"; a requested
/// key the state does not track is silently absent from the result.
pub fn select(keys: &Vec<String>, state: &RegistryState) -> (r: ProgressMap)
    ensures
        r@ == select_model(keys@, state@),
{
    if keys.len() == 0 {
        return select_all(state);
    }
    let mut out = ProgressMap::new();
    let mut i: usize = 0;
    proof {
        assert(requested_set(keys@.take(0)) =~= Set::<Seq<char>>::empty());
        assert(out@ =~= state@.restrict(requested_set(keys@.take(0))));
    }
    while i < keys.len()
        invariant
            i <= keys@.len(),
            out@ == state@.restrict(requested_set(keys@.take(i as int))),
        decreases keys@.len() - i,
    {
        let ghost prev = out@;
        let ghost kset = requested_set(keys@.take(i as int));
        let key = &keys[i];
        match state.get(key) {
            None => {
                proof {
                    lemma_requested_set_take_step(keys@, i as int);
                    assert(state@.restrict(kset.insert(key@)) =~= prev);
                }
            },
            Some(stages) => {
                let views = project_stages(stages);
                out.insert(key.clone(), views);
                proof {
                    lemma_requested_set_take_step(keys@, i as int);
                    if prev.contains_key(key@) {
                        assert(kset.contains(key@));
                        assert(state@.restrict(kset.insert(key@)) =~= prev);
                    } else {
                        assert(state@.restrict(kset.insert(key@)) =~= prev.insert(
                            key@,
                            state@[key@],
                        ));
                    }
                }
            },
        }
        i = i + 1;
    }
    proof {
        assert(keys@.take(keys@.len() as int) =~= keys@);
    }
    out
}

/// Selects every job the state tracks, projecting all stages of each.
fn select_all(state: &RegistryState) -> (r: ProgressMap)
    ensures
        r@ == state@,
{
    proof {
        use_type_invariant(&*state);
    }
    let mut out = ProgressMap::new();
    let mut i: usize = 0;
    proof {
        assert(out@ =~= record_entries_map(state.jobs@.take(0)));
    }
    while i < state.jobs.len()
        invariant
            i <= state.jobs@.len(),
            unique_keys(state.jobs@),
            out@ == record_entries_map(state.jobs@.take(i as int)),
        decreases state.jobs@.len() - i,
    {
        let ghost prev = out@;
        let ghost k = state.jobs@[i as int].0@;
        let views = project_stages(&state.jobs[i].1);
        out.insert(state.jobs[i].0.clone(), views);
        proof {
            let taken = state.jobs@.take(i as int);
            assert(forall|j: int| 0 <= j < i ==> taken[j] == state.jobs@[j]);
            lemma_assoc_map_lookup(taken, |v: Vec<StageRecord>| stages_data(v@), k);
            if key_index(taken, k) != -1 {
                let j = key_index(taken, k);
                assert(state.jobs@[j].0@ == state.jobs@[i as int].0@);
                assert(false);
            }
            assert(!prev.contains_key(k));
            assert(state.jobs@.take(i as int + 1).drop_last() =~= taken);
            assert(state.jobs@.take(i as int + 1).last() == state.jobs@[i as int]);
        }
        i = i + 1;
    }
    proof {
        assert(state.jobs@.take(state.jobs@.len() as int) =~= state.jobs@);
    }
    out
}

} // verus!
