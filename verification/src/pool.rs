//! Client pool: four pre-built transport clients, one per combination of TLS
//! verification on/off and redirect-following on/off.
//!
//! Selecting a client is a pure lookup that never fails; rebuilding replaces
//! the pool as a whole, so an execution that captured a snapshot before a
//! rebuild keeps the transport policy it captured.

use vstd::prelude::*;

use crate::models::RequestConfig;
use reqwest::Client;

verus! {

#[verifier::external_type_specification]
#[verifier::external_body]
pub struct ExClient(Client);

#[verifier::external_type_specification]
#[verifier::external_body]
pub struct ExPolicy(reqwest::redirect::Policy);

/// The redirect cap a policy enforces: `Some(max)` for a limited policy,
/// `None` for one that treats redirects as terminal responses.
pub uninterp spec fn redirect_cap(p: reqwest::redirect::Policy) -> Option<usize>;

/// Whether a client was built to skip TLS certificate verification.
pub uninterp spec fn accepts_invalid_certs(c: Client) -> bool;

/// The redirect cap a client was built with, read as `redirect_cap` reads
/// its policy.
pub uninterp spec fn client_redirect_cap(c: Client) -> Option<usize>;

/// Relies on `reqwest::redirect::Policy::limited`: a policy that follows at
/// most `max` redirect hops.
#[verifier::external_body]
fn policy_limited(max: usize) -> (r: reqwest::redirect::Policy)
    ensures
        redirect_cap(r) == Option::Some(max),
{
    reqwest::redirect::Policy::limited(max)
}

/// Relies on `reqwest::redirect::Policy::none`: a policy that treats any
/// redirect response as a terminal response.
#[verifier::external_body]
fn policy_none() -> (r: reqwest::redirect::Policy)
    ensures
        redirect_cap(r) == Option::<usize>::None,
{
    reqwest::redirect::Policy::none()
}

/// Relies on `Client::builder`, `ClientBuilder::danger_accept_invalid_certs`,
/// `ClientBuilder::redirect` and `ClientBuilder::build`: a client that skips
/// TLS certificate verification exactly when `insecure` holds and handles
/// redirects per `policy`; `None` when the TLS backend cannot be initialized.
#[verifier::external_body]
fn build_transport(insecure: bool, policy: reqwest::redirect::Policy) -> (r: Option<Client>)
    ensures
        r is Some ==> accepts_invalid_certs(r->0) == insecure,
        r is Some ==> client_redirect_cap(r->0) == redirect_cap(policy),
{
    reqwest::Client::builder().danger_accept_invalid_certs(insecure).redirect(policy).build().ok()
}

/// Relies on `Client::clone`: a client is a shared handle over one connection
/// pool, and cloning yields the same client.
#[verifier::external_body]
fn clone_client(c: &Client) -> (r: Client)
    ensures
        r == *c,
{
    c.clone()
}

/// The four transport clients, keyed by (TLS verification, redirect
/// following), plus the redirect limit the pool was built with.
pub struct HttpExecutor {
    pub strict_follow: Client,
    pub strict_nofollow: Client,
    pub insecure_follow: Client,
    pub insecure_nofollow: Client,
    pub max_redirects: usize,
}

/// What one execution captures from the pool before racing: the selected
/// client and the redirect limit in force at capture time.
pub struct PoolSnapshot {
    pub client: Client,
    pub max_redirects: usize,
}

/// Each of the four clients carries its own (TLS-verification,
/// redirect-following) combination: the with-redirects clients are capped at
/// the pool's limit, the without-redirects clients treat redirects as
/// terminal, and exactly the insecure pair skips certificate verification.
pub open spec fn pool_well_formed(p: HttpExecutor) -> bool {
    &&& !accepts_invalid_certs(p.strict_follow)
    &&& client_redirect_cap(p.strict_follow) == Option::Some(p.max_redirects)
    &&& !accepts_invalid_certs(p.strict_nofollow)
    &&& client_redirect_cap(p.strict_nofollow) == Option::<usize>::None
    &&& accepts_invalid_certs(p.insecure_follow)
    &&& client_redirect_cap(p.insecure_follow) == Option::Some(p.max_redirects)
    &&& accepts_invalid_certs(p.insecure_nofollow)
    &&& client_redirect_cap(p.insecure_nofollow) == Option::<usize>::None
}

impl HttpExecutor {
    /// The client that serves a (TLS-verification, redirect-following) pair.
    pub open spec fn client_for(self, ignore_tls: bool, follow_redirects: bool) -> Client {
        if !ignore_tls && follow_redirects {
            self.strict_follow
        } else if !ignore_tls && !follow_redirects {
            self.strict_nofollow
        } else if ignore_tls && follow_redirects {
            self.insecure_follow
        } else {
            self.insecure_nofollow
        }
    }

    /// What a snapshot for the given flags holds.
    pub open spec fn snapshot_spec(self, ignore_tls: bool, follow_redirects: bool) -> PoolSnapshot {
        PoolSnapshot {
            client: self.client_for(ignore_tls, follow_redirects),
            max_redirects: self.max_redirects,
        }
    }

    /// Builds the four clients, each with-redirects client capped at
    /// `max_redirects` hops and each without-redirects client treating
    /// redirects as terminal. `None` when the transport cannot be built.
    pub fn new(max_redirects: usize) -> (r: Option<HttpExecutor>)
        ensures
            r is Some ==> r->0.max_redirects == max_redirects,
            r is Some ==> pool_well_formed(r->0),
    {
        let strict_follow = build_transport(false, policy_limited(max_redirects));
        let strict_nofollow = build_transport(false, policy_none());
        let insecure_follow = build_transport(true, policy_limited(max_redirects));
        let insecure_nofollow = build_transport(true, policy_none());
        match (strict_follow, strict_nofollow, insecure_follow, insecure_nofollow) {
            (Option::Some(sf), Option::Some(sn), Option::Some(inf), Option::Some(inn)) => {
                Option::Some(
                    HttpExecutor {
                        strict_follow: sf,
                        strict_nofollow: sn,
                        insecure_follow: inf,
                        insecure_nofollow: inn,
                        max_redirects,
                    },
                )
            },
            _ => Option::None,
        }
    }

    /// Pure lookup of the client for a request's transport flags; never
    /// builds and never fails.
    pub fn select_client(&self, config: &RequestConfig) -> (r: &Client)
        ensures
            *r == self.client_for(config.ignore_tls, config.follow_redirects),
    {
        if !config.ignore_tls && config.follow_redirects {
            &self.strict_follow
        } else if !config.ignore_tls && !config.follow_redirects {
            &self.strict_nofollow
        } else if config.ignore_tls && config.follow_redirects {
            &self.insecure_follow
        } else {
            &self.insecure_nofollow
        }
    }

    /// Captures the client for this request together with the redirect limit
    /// in force now; the execution keeps this snapshot to completion even if
    /// the pool is rebuilt meanwhile.
    pub fn snapshot(&self, config: &RequestConfig) -> (r: PoolSnapshot)
        ensures
            r == self.snapshot_spec(config.ignore_tls, config.follow_redirects),
    {
        PoolSnapshot {
            client: clone_client(self.select_client(config)),
            max_redirects: self.max_redirects,
        }
    }

    /// Replaces the whole pool with one built for the new limit; on a build
    /// failure the pool is left exactly as it was.
    pub fn rebuild(&mut self, max_redirects: usize) -> (ok: bool)
        ensures
            ok ==> final (self).max_redirects == max_redirects,
            ok ==> pool_well_formed(*final (self)),
            !ok ==> *final (self) == *old(self),
    {
        match HttpExecutor::new(max_redirects) {
            Option::Some(fresh) => {
                *self = fresh;
                true
            },
            Option::None => false,
        }
    }
}

/// In a well-formed pool, the selected client's configuration is exactly the
/// request's transport flags: certificate verification is skipped iff the
/// request asks to, and the redirect cap is the pool's limit iff the request
/// follows redirects.
pub proof fn lemma_selected_client_config(p: HttpExecutor, ignore_tls: bool, follow_redirects: bool)
    requires
        pool_well_formed(p),
    ensures
        accepts_invalid_certs(p.client_for(ignore_tls, follow_redirects)) == ignore_tls,
        client_redirect_cap(p.client_for(ignore_tls, follow_redirects)) == (if follow_redirects {
            Option::Some(p.max_redirects)
        } else {
            Option::<usize>::None
        }),
{
}

/// Pool rebuild isolation: a snapshot is determined by the pool it was taken
/// from alone, so after a rebuild to a different limit the snapshot still
/// carries the limit of the pool it captured, not the new one.
pub proof fn lemma_snapshot_isolated(
    before: HttpExecutor,
    rebuilt: HttpExecutor,
    ignore_tls: bool,
    follow_redirects: bool,
)
    requires
        rebuilt.max_redirects != before.max_redirects,
    ensures
        before.snapshot_spec(ignore_tls, follow_redirects).max_redirects == before.max_redirects,
        before.snapshot_spec(ignore_tls, follow_redirects).max_redirects
            != rebuilt.max_redirects,
{
}

} // verus!
