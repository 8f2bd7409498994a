//! The shared registry: one registry state behind a single mutual-exclusion
//! lock, and the snapshot queries over it.
//!
//! The lock covers the whole state. Each query acquires it once, copies the
//! requested entries out, and releases it before the result is handed back,
//! so a returned mapping never aliases the registry. Which state a query
//! observes depends on what producers did before the lock was granted; the
//! selection itself is the verified [`select`](crate::registry::select), so
//! whatever state was observed, the result is exactly that state's selection.

use vstd::prelude::*;

use std::sync::Mutex;
use std::sync::MutexGuard;

use crate::registry::RegistryState;
use crate::registry::requested_set;
use crate::registry::select;
use crate::result_map::ProgressMap;

verus! {

/// The error message of a failed query: the registry lock could not be
/// acquired.
pub const FAILED_TO_ACQUIRE_LOCK: &'static str = "Failed to acquire lock";

#[verifier::external_type_specification]
#[verifier::external_body]
#[verifier::reject_recursive_types(T)]
pub struct ExMutex<T: ?Sized>(Mutex<T>);

#[verifier::external_type_specification]
#[verifier::external_body]
#[verifier::reject_recursive_types(T)]
pub struct ExMutexGuard<'a, T: ?Sized + 'a>(MutexGuard<'a, T>);

/// A registry state shared between this query layer and the producers that
/// advance jobs, guarded by one coarse-grained lock.
pub struct SharedRegistry {
    inner: Mutex<RegistryState>,
}

/// Relies on std::sync::Mutex::new: creates an unlocked mutex holding the
/// given state.
#[verifier::external_body]
fn registry_mutex_new(state: RegistryState) -> Mutex<RegistryState> {
    Mutex::new(state)
}

/// Relies on std::sync::Mutex::lock: blocks until no other thread holds the
/// lock, then grants exclusive access; returns None exactly when the mutex is
/// poisoned, that is, when a thread panicked while holding it.
#[verifier::external_body]
fn registry_lock<'a>(m: &'a Mutex<RegistryState>) -> Option<MutexGuard<'a, RegistryState>> {
    match m.lock() {
        Ok(guard) => Some(guard),
        Err(_) => None,
    }
}

/// Relies on std::sync::MutexGuard's Deref impl: borrows the state the lock
/// currently protects. The borrow cannot outlive the guard, so the state
/// cannot change while it is read.
#[verifier::external_body]
fn guard_state<'a, 'b>(guard: &'b MutexGuard<'a, RegistryState>) -> &'b RegistryState {
    &**guard
}

impl SharedRegistry {
    /// Wraps a registry state in a fresh lock.
    pub fn new(state: RegistryState) -> SharedRegistry {
        SharedRegistry { inner: registry_mutex_new(state) }
    }
}

/// Answers a request for the given keys, an empty list meaning "all tracked
/// jobs": acquires the registry lock once, selects and projects the requested
/// entries, and releases the lock before returning.
///
/// Which registry state the request observes depends on concurrent producers;
/// whatever state that is, the returned mapping is exactly `select`'s result
/// for it. In particular a non-empty request only ever yields requested keys,
/// and a requested key the registry does not track is absent from the result
/// rather than an error. The query fails only when the lock cannot be
/// acquired.
pub fn get_progresses_info(progress_keys: Vec<String>, progholder: &SharedRegistry) -> (r: Result<
    ProgressMap,
    &'static str,
>)
    ensures
        r matches Ok(m) ==> progress_keys@.len() > 0 ==> m@.dom().subset_of(
            requested_set(progress_keys@),
        ),
        r matches Err(e) ==> e@ == FAILED_TO_ACQUIRE_LOCK@,
{
    if progress_keys.is_empty() {
        return get_all_progresses_info(progholder);
    }
    match registry_lock(&progholder.inner) {
        None => Err(FAILED_TO_ACQUIRE_LOCK),
        Some(guard) => {
            let state = guard_state(&guard);
            let m = select(&progress_keys, state);
            Ok(m)
        },
    }
}

/// Answers a request for every tracked job: acquires the registry lock once,
/// projects every entry of the observed state, and releases the lock before
/// returning. Fails only when the lock cannot be acquired.
pub fn get_all_progresses_info(progholder: &SharedRegistry) -> (r: Result<
    ProgressMap,
    &'static str,
>)
    ensures
        r matches Err(e) ==> e@ == FAILED_TO_ACQUIRE_LOCK@,
{
    match registry_lock(&progholder.inner) {
        None => Err(FAILED_TO_ACQUIRE_LOCK),
        Some(guard) => {
            let keys: Vec<String> = Vec::new();
            let state = guard_state(&guard);
            let m = select(&keys, state);
            Ok(m)
        },
    }
}

} // verus!
