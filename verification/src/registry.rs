//! Cancellation registry: a process-wide concurrent map from an opaque
//! request handle to the abort control of that execution's in-flight work.
//!
//! An entry is inserted when a dispatch starts and removed by exactly one of
//! natural completion, timeout or explicit cancellation; a removed handle is
//! gone, so a second cancellation of the same handle reports `false`.

use vstd::prelude::*;

use dashmap::DashMap;
use futures::future::AbortHandle;
use futures::future::AbortRegistration;

verus! {

#[verifier::external_type_specification]
#[verifier::external_body]
#[verifier::reject_recursive_types(K)]
#[verifier::reject_recursive_types(V)]
#[verifier::reject_recursive_types(S)]
pub struct ExDashMap<K, V, S>(DashMap<K, V, S>);

#[verifier::external_type_specification]
#[verifier::external_body]
pub struct ExAbortHandle(AbortHandle);

#[verifier::external_type_specification]
#[verifier::external_body]
pub struct ExAbortRegistration(AbortRegistration);

/// The set of keys that a registry map currently holds.
pub uninterp spec fn registered_handles(m: DashMap<String, AbortHandle>) -> Set<Seq<char>>;

/// Relies on `DashMap::new`: creates an empty map.
#[verifier::external_body]
fn new_handle_map() -> (r: DashMap<String, AbortHandle>)
    ensures
        registered_handles(r) == Set::<Seq<char>>::empty(),
{
    DashMap::new()
}

/// Relies on `DashMap::insert`: adds the entry for the key, replacing any
/// entry the key already had.
#[verifier::external_body]
fn handle_map_insert(m: &mut DashMap<String, AbortHandle>, key: String, control: AbortHandle)
    ensures
        registered_handles(*final (m)) == registered_handles(*old(m)).insert(key@),
{
    m.insert(key, control);
}

/// Relies on `DashMap::remove`: takes the entry out, returning its value
/// exactly when the key was present.
#[verifier::external_body]
fn handle_map_remove(m: &mut DashMap<String, AbortHandle>, key: &str) -> (r: Option<AbortHandle>)
    ensures
        registered_handles(*final (m)) == registered_handles(*old(m)).remove(key@),
        r is Some <==> registered_handles(*old(m)).contains(key@),
{
    m.remove(key).map(|entry| entry.1)
}

/// Relies on `AbortHandle::new_pair`: a fresh abort handle linked to a fresh
/// abort registration.
#[verifier::external_body]
fn abort_pair() -> (r: (AbortHandle, AbortRegistration)) {
    AbortHandle::new_pair()
}

/// Relies on `AbortHandle::abort`: signals the linked `Abortable` work to
/// stop at its next suspension point.
#[verifier::external_body]
fn signal_abort(control: &AbortHandle) {
    control.abort();
}

/// Relies on `Uuid::new_v4` and its `to_string`: a freshly drawn identifier
/// in the 36-character hyphenated form. The value is random; nothing beyond
/// its shape is promised.
#[verifier::external_body]
pub fn fresh_handle_id() -> (r: String)
    ensures
        r@.len() == 36,
{
    uuid::Uuid::new_v4().to_string()
}

/// Process-wide map from request handle to abort control.
pub struct CancellationRegistry {
    active: DashMap<String, AbortHandle>,
}

impl CancellationRegistry {
    /// The handles with a live entry.
    pub closed spec fn handles(self) -> Set<Seq<char>> {
        registered_handles(self.active)
    }

    /// A registry with no live entries.
    pub fn new() -> (r: CancellationRegistry)
        ensures
            r.handles() == Set::<Seq<char>>::empty(),
    {
        CancellationRegistry { active: new_handle_map() }
    }

    /// Inserts a fresh abort control for the handle and returns the linked
    /// registration, to be attached to the execution's cancellable work.
    pub fn register(&mut self, id: &String) -> (r: AbortRegistration)
        ensures
            final (self).handles() == old(self).handles().insert(id@),
    {
        let (control, registration) = abort_pair();
        handle_map_insert(&mut self.active, id.clone(), control);
        registration
    }

    /// Removes the entry for the handle and signals abort; reports whether an
    /// entry existed. A handle that has already completed, been cancelled or
    /// was never registered yields `false`, not an error.
    pub fn cancel_request(&mut self, id: &str) -> (r: bool)
        ensures
            final (self).handles() == old(self).handles().remove(id@),
            r == old(self).handles().contains(id@),
    {
        match handle_map_remove(&mut self.active, id) {
            Option::Some(control) => {
                signal_abort(&control);
                true
            },
            Option::None => false,
        }
    }

    /// Removes the entry for the handle without signalling, as when the
    /// execution reached a terminal state on its own.
    pub fn clear(&mut self, id: &str) -> (r: bool)
        ensures
            final (self).handles() == old(self).handles().remove(id@),
            r == old(self).handles().contains(id@),
    {
        match handle_map_remove(&mut self.active, id) {
            Option::Some(_) => true,
            Option::None => false,
        }
    }
}

/// Cancellation is idempotent per handle: whichever of completion, timeout or
/// cancellation removes an entry first, the handle is no longer registered
/// afterwards, so a second cancellation of the same handle finds no entry and
/// reports `false` by the contract of `cancel_request`.
pub proof fn lemma_cancel_idempotent(before: Set<Seq<char>>, id: Seq<char>)
    ensures
        !before.remove(id).contains(id),
        before.remove(id).remove(id) == before.remove(id),
{
    assert(before.remove(id).remove(id) =~= before.remove(id));
}

} // verus!
