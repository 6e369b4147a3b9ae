//! Dispatch coordination: one execution runs as cancellable work racing a
//! timeout timer and an external cancel signal; whichever is observed first
//! determines the single terminal outcome, and the registry entry is cleared
//! unconditionally before that outcome is returned.
//!
//! The embedding application performs the actual awaiting; this module owns
//! every decision: what a dispatch registers, how an observed race outcome
//! settles into a result, and how transport failures are classified.

use vstd::prelude::*;

use crate::models::HttpError;
use crate::models::HttpResponse;
use crate::models::RequestConfig;
use crate::models::SendResult;
use crate::pool::pool_well_formed;
use crate::pool::HttpExecutor;
use crate::pool::PoolSnapshot;
use crate::registry::fresh_handle_id;
use crate::registry::CancellationRegistry;
use futures::future::AbortRegistration;

verus! {

/// What the coordinator observed first once the race ended.
pub enum RaceOutcome {
    /// The pipeline finished before timeout and cancellation: a response, or
    /// a classified transport error.
    Finished { result: Result<HttpResponse, HttpError> },
    /// The timeout timer fired first.
    TimedOut,
    /// The external cancel signal won the race.
    Aborted,
}

/// The states a dispatch moves through: `Pending` (handle generated, registry
/// entry created, pool snapshot taken), `Racing`, then exactly one terminal
/// state.
#[derive(Debug, Clone, Copy, PartialEq, Eq, Structural)]
pub enum DispatchState {
    Pending,
    Racing,
    Completed,
    TimedOut,
    Cancelled,
    Errored,
}

/// The terminal state that an observed race outcome leads to.
pub open spec fn terminal_state_of(outcome: RaceOutcome) -> DispatchState {
    match outcome {
        RaceOutcome::Finished { result } => DispatchState::Completed,
        RaceOutcome::TimedOut => DispatchState::TimedOut,
        RaceOutcome::Aborted => DispatchState::Cancelled,
    }
}

/// How the terminal result of a dispatch relates to the observed race
/// outcome: a finished pipeline yields its response or its classified error,
/// a timeout yields `Failed{Timeout}`, a won cancel signal yields
/// `Failed{Cancelled}`; the handle is carried in every case.
pub open spec fn settled(request_id: String, outcome: RaceOutcome, r: SendResult) -> bool {
    match outcome {
        RaceOutcome::Finished { result } => match result {
            Result::Ok(response) => {
                &&& r matches SendResult::Success { request_id: rid, response: resp }
                &&& rid == request_id
                &&& resp == response
            },
            Result::Err(error) => {
                &&& r matches SendResult::Failed { request_id: rid, error: e }
                &&& rid == request_id
                &&& e == error
            },
        },
        RaceOutcome::TimedOut => {
            &&& r matches SendResult::Failed { request_id: rid, error: e }
            &&& rid == request_id
            &&& e == HttpError::Timeout
        },
        RaceOutcome::Aborted => {
            &&& r matches SendResult::Failed { request_id: rid, error: e }
            &&& rid == request_id
            &&& e == HttpError::Cancelled
        },
    }
}

/// The race ends in one of the three reachable terminal states, and only a
/// completed pipeline that produced a response settles as `Success`.
pub proof fn lemma_terminal_states(request_id: String, outcome: RaceOutcome, r: SendResult)
    requires
        settled(request_id, outcome, r),
    ensures
        terminal_state_of(outcome) == DispatchState::Completed || terminal_state_of(outcome)
            == DispatchState::TimedOut || terminal_state_of(outcome) == DispatchState::Cancelled,
        r is Success ==> terminal_state_of(outcome) == DispatchState::Completed,
{
}

/// Once an outcome is chosen it settles to exactly one result: two results
/// settled from the same observation are the same, and both carry the
/// dispatch's own handle.
pub proof fn lemma_settled_unique(
    request_id: String,
    outcome: RaceOutcome,
    r1: SendResult,
    r2: SendResult,
)
    requires
        settled(request_id, outcome, r1),
        settled(request_id, outcome, r2),
    ensures
        r1 == r2,
{
}

/// Classifies a transport failure from what the transport reports of it:
/// timeout first, then connection-level failure, then request-construction
/// failure, and a generic network failure otherwise.
pub fn classify_transport_error(
    is_timeout: bool,
    is_connect: bool,
    is_request: bool,
    message: String,
) -> (r: HttpError)
    ensures
        is_timeout ==> r == HttpError::Timeout,
        !is_timeout && is_connect ==> (r matches HttpError::Network { message: m } && m@
            == message@),
        !is_timeout && !is_connect && is_request ==> (r matches HttpError::InvalidUrl {
            message: m,
        } && m@ == message@),
        !is_timeout && !is_connect && !is_request ==> (r matches HttpError::Network { message: m }
            && m@ == message@),
{
    if is_timeout {
        HttpError::Timeout
    } else if is_connect {
        HttpError::Network { message }
    } else if is_request {
        HttpError::InvalidUrl { message }
    } else {
        HttpError::Network { message }
    }
}

/// The request executor as one service object: the shared client pool and the
/// process-wide cancellation registry, created once at startup and passed by
/// reference to all callers.
pub struct RequestEngine {
    pub pool: HttpExecutor,
    pub registry: CancellationRegistry,
}

impl RequestEngine {
    /// A fresh engine: a pool built for the redirect limit and an empty
    /// registry. `None` when the transport cannot be built.
    pub fn new(max_redirects: usize) -> (r: Option<RequestEngine>)
        ensures
            r is Some ==> r->0.pool.max_redirects == max_redirects,
            r is Some ==> pool_well_formed(r->0.pool),
            r is Some ==> r->0.registry.handles() == Set::<Seq<char>>::empty(),
    {
        match HttpExecutor::new(max_redirects) {
            Option::Some(pool) => Option::Some(
                RequestEngine { pool, registry: CancellationRegistry::new() },
            ),
            Option::None => Option::None,
        }
    }

    /// Starts a dispatch: draws a fresh handle, registers its abort control,
    /// and captures the pool snapshot this execution will keep to completion.
    /// The pool itself is untouched.
    pub fn begin_dispatch(&mut self, config: &RequestConfig) -> (r: (
        String,
        AbortRegistration,
        PoolSnapshot,
    ))
        ensures
            final (self).registry.handles() == old(self).registry.handles().insert(r.0@),
            final (self).pool == old(self).pool,
            r.2 == old(self).pool.snapshot_spec(config.ignore_tls, config.follow_redirects),
            r.0@.len() == 36,
    {
        let request_id = fresh_handle_id();
        let registration = self.registry.register(&request_id);
        let snapshot = self.pool.snapshot(config);
        (request_id, registration, snapshot)
    }

    /// Ends a dispatch: clears the registry entry unconditionally, whatever
    /// the outcome was, and settles the observed outcome into the one
    /// terminal result for this handle.
    pub fn finish_dispatch(&mut self, request_id: String, outcome: RaceOutcome) -> (r: SendResult)
        ensures
            final (self).registry.handles() == old(self).registry.handles().remove(request_id@),
            final (self).pool == old(self).pool,
            settled(request_id, outcome, r),
    {
        self.registry.clear(request_id.as_str());
        match outcome {
            RaceOutcome::Finished { result } => match result {
                Result::Ok(response) => SendResult::Success { request_id, response },
                Result::Err(error) => SendResult::Failed { request_id, error },
            },
            RaceOutcome::TimedOut => SendResult::Failed {
                request_id,
                error: HttpError::Timeout,
            },
            RaceOutcome::Aborted => SendResult::Failed {
                request_id,
                error: HttpError::Cancelled,
            },
        }
    }

    /// Cancels an in-flight request by its handle: removes the entry and
    /// signals abort; `true` exactly when an entry existed. A handle already
    /// settled, already cancelled or never registered yields `false`.
    pub fn cancel_request(&mut self, request_id: &str) -> (r: bool)
        ensures
            final (self).registry.handles() == old(self).registry.handles().remove(request_id@),
            r == old(self).registry.handles().contains(request_id@),
            final (self).pool == old(self).pool,
    {
        self.registry.cancel_request(request_id)
    }

    /// Replaces the whole pool with one built for the new redirect limit;
    /// in-flight executions keep the snapshot they captured. On a build
    /// failure the pool is left as it was. The registry is untouched.
    pub fn rebuild_pool(&mut self, max_redirects: usize) -> (ok: bool)
        ensures
            ok ==> final (self).pool.max_redirects == max_redirects,
            ok ==> pool_well_formed(final (self).pool),
            !ok ==> final (self).pool == old(self).pool,
            final (self).registry.handles() == old(self).registry.handles(),
    {
        self.pool.rebuild(max_redirects)
    }
}

} // verus!
