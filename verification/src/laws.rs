//! The laws of the snapshot selector, stated and proved over its model.
//!
//! [`select`](crate::registry::select) ensures that its result equals
//! [`select_model`](crate::registry::select_model) of its inputs; the lemmas
//! here spell out what that model guarantees.

use vstd::prelude::*;

use crate::registry::requested_set;
use crate::registry::select_model;
use crate::stage::StageData;

verus! {

/// For a non-empty key list, the selection's key set is exactly the requested
/// keys that the registry tracks — so in particular a subset of both — and
/// every selected entry equals the registry's entry unchanged.
pub proof fn lemma_select_keyed(keys: Seq<String>, registry: Map<Seq<char>, Seq<StageData>>)
    requires
        keys.len() > 0,
    ensures
        select_model(keys, registry).dom() == registry.dom().intersect(requested_set(keys)),
        forall|k: Seq<char>| #[trigger]
            select_model(keys, registry).contains_key(k) ==> select_model(keys, registry)[k]
                == registry[k],
{
    assert(select_model(keys, registry).dom() =~= registry.dom().intersect(requested_set(keys)));
}

/// An empty key list selects the whole registry: the result is the registry
/// state itself, key for key and entry for entry.
pub proof fn lemma_select_all(registry: Map<Seq<char>, Seq<StageData>>)
    ensures
        select_model(Seq::<String>::empty(), registry) == registry,
{
}

/// Selection is idempotent: two selections of the same keys from the same
/// registry state are identical, since the result is a function of the two.
pub proof fn lemma_select_idempotent(
    keys: Seq<String>,
    registry: Map<Seq<char>, Seq<StageData>>,
    first: Map<Seq<char>, Seq<StageData>>,
    second: Map<Seq<char>, Seq<StageData>>,
)
    requires
        first == select_model(keys, registry),
        second == select_model(keys, registry),
    ensures
        first == second,
{
}

/// A duplicated requested key changes nothing: the result is keyed, so a key
/// asked for twice yields the one entry it yields when asked for once.
pub proof fn lemma_select_duplicate_key(
    keys: Seq<String>,
    i: int,
    registry: Map<Seq<char>, Seq<StageData>>,
)
    requires
        0 <= i < keys.len(),
    ensures
        select_model(keys.push(keys[i]), registry) == select_model(keys, registry),
{
    let extended = keys.push(keys[i]);
    assert forall|k: Seq<char>| requested_set(extended).contains(k) implies requested_set(
        keys,
    ).contains(k) by {
        let j = choose|j: int| 0 <= j < extended.len() && (#[trigger] extended[j])@ == k;
        if j < keys.len() {
            assert(keys[j]@ == k);
        } else {
            assert(keys[i]@ == k);
        }
    };
    assert forall|k: Seq<char>| requested_set(keys).contains(k) implies requested_set(
        extended,
    ).contains(k) by {
        let j = choose|j: int| 0 <= j < keys.len() && (#[trigger] keys[j])@ == k;
        assert(extended[j]@ == k);
    };
    assert(requested_set(extended) =~= requested_set(keys));
}

/// A selection never invents data: whatever the key list, every entry of the
/// result is an entry of the registry under the same key.
pub proof fn lemma_select_sound(keys: Seq<String>, registry: Map<Seq<char>, Seq<StageData>>)
    ensures
        forall|k: Seq<char>| #[trigger]
            select_model(keys, registry).contains_key(k) ==> registry.contains_key(k)
                && select_model(keys, registry)[k] == registry[k],
{
}

} // verus!
