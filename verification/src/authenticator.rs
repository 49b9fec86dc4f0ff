//! The credential-renewal coordinator: one cache holding the strategy slot
//! and the current acquisition, with the policy that decides when a
//! credential is still usable, when it is refreshed, and when the stored
//! strategy is replayed or retired.
//!
//! The host is expected to guard a whole `Authenticator` with one
//! mutual-exclusion lock and to call these methods under it; each method
//! is O(1) apart from string copying and never waits on I/O.  The
//! exchange itself runs unguarded: the host reads
//! [`Authenticator::pending_request`], performs the call, and reports the
//! outcome through [`Authenticator::deliver`].

use vstd::prelude::*;

use crate::acquisition::spec_refresh_request_matches;
use crate::acquisition::spec_request_matches;
use crate::acquisition::BearerTokenFuture;
use crate::acquisition::BearerTokenPoll;
use crate::acquisition::ExchangeOutcome;
use crate::acquisition::TokenRequest;
use crate::acquisition::resolve_exchange;
use crate::acquisition::spec_outcome_resolution;
use crate::authentication::AppSecrets;
use crate::authentication::AuthFlow;
use crate::authentication::BearerToken;
use crate::error::SnooBuilderError;

verus! {

/// A copyable handle to the authenticator's current acquisition.  Two
/// handles with the same generation refer to the same exchange: callers
/// holding them await one shared outcome, and no duplicate request exists.
#[derive(Clone, Copy, Debug, PartialEq, Eq, Structural)]
pub struct SharedBearerTokenFuture {
    /// Which installation of the acquisition cell the handle refers to.
    pub generation: u64,
}

/// The sole entry point consumers use to obtain a usable credential.
///
/// It owns the immutable application secrets, the mutable strategy slot
/// (empty once a single-use strategy has been consumed), and the current
/// acquisition, which is always present after construction.
#[derive(Debug)]
pub struct Authenticator {
    app_secrets: AppSecrets,
    auth_flow: Option<AuthFlow>,
    acquisition: BearerTokenFuture,
    generation: u64,
}

impl Authenticator {
    /// The application secrets.
    pub closed spec fn spec_secrets(&self) -> AppSecrets {
        self.app_secrets
    }

    /// The stored strategy, if one remains.
    pub closed spec fn spec_flow(&self) -> Option<AuthFlow> {
        self.auth_flow
    }

    /// The current acquisition.
    pub closed spec fn spec_acquisition(&self) -> BearerTokenFuture {
        self.acquisition
    }

    /// How many times an acquisition has been installed.
    pub closed spec fn spec_generation(&self) -> u64 {
        self.generation
    }

    /// Everything held is well formed, and a pre-supplied credential is
    /// never left drained inside the cell.
    pub closed spec fn well_formed(&self) -> bool {
        &&& self.acquisition.well_formed()
        &&& !(self.acquisition == BearerTokenFuture::Fixed(None::<BearerToken>))
        &&& match self.auth_flow {
            Some(f) => f.well_formed(),
            None => true,
        }
    }

    /// Rule 1 of the renewal policy: the cached credential has resolved,
    /// is expired, and carries a refresh token.
    pub open spec fn spec_rule_refresh(&self, now: u64) -> bool {
        match self.spec_acquisition().spec_peek() {
            Some(t) => t.spec_is_expired(now) && t.spec_refresh_token() is Some,
            None => false,
        }
    }

    /// Rule 2 of the renewal policy, evaluated only after rule 1 declined:
    /// a strategy is stored, and either renewal is forced or the cached
    /// credential has resolved, is expired, and cannot be refreshed.
    pub open spec fn spec_rule_reauth(&self, renew: bool, now: u64) -> bool {
        &&& !self.spec_rule_refresh(now)
        &&& self.spec_flow() is Some
        &&& (renew || match self.spec_acquisition().spec_peek() {
            Some(t) => t.spec_is_expired(now) && t.spec_refresh_token() is None,
            None => false,
        })
    }

    /// Builds an authenticator from the secrets and at least one of a
    /// pre-supplied credential or a strategy.
    ///
    /// A supplied strategy is retained only if it is reusable (a password
    /// strategy); a single-use strategy is consumed by the immediate
    /// exchange, or dropped outright when a credential is already at hand.
    /// With neither a credential nor a strategy, construction fails.
    pub fn new(
        app_secrets: AppSecrets,
        auth_flow: Option<AuthFlow>,
        bearer_token: Option<BearerToken>,
    ) -> (r: Result<Authenticator, SnooBuilderError>)
        requires
            match auth_flow {
                Some(f) => f.well_formed(),
                None => true,
            },
            match bearer_token {
                Some(t) => t.well_formed(),
                None => true,
            },
        ensures
            match bearer_token {
                Some(t) => {
                    &&& r matches Ok(a)
                    &&& a.well_formed()
                    &&& a.spec_secrets() == app_secrets
                    &&& a.spec_generation() == 0
                    &&& a.spec_acquisition() == BearerTokenFuture::Fixed(Some(t))
                    &&& a.spec_flow() == (match auth_flow {
                        Some(f) => if f is Password {
                            Some(f)
                        } else {
                            None::<AuthFlow>
                        },
                        None => None::<AuthFlow>,
                    })
                },
                None => match auth_flow {
                    Some(f) => {
                        &&& r matches Ok(a)
                        &&& a.well_formed()
                        &&& a.spec_secrets() == app_secrets
                        &&& a.spec_generation() == 0
                        &&& a.spec_acquisition() matches BearerTokenFuture::Pending(req)
                            && spec_request_matches(req, f, app_secrets)
                        &&& a.spec_flow() == (if f is Password {
                            Some(f)
                        } else {
                            None::<AuthFlow>
                        })
                    },
                    None => r == Err::<Authenticator, SnooBuilderError>(
                        SnooBuilderError::MissingAuthFlow,
                    ),
                },
            },
    {
        match bearer_token {
            Some(t) => {
                let flow = match auth_flow {
                    Some(f) => if f.is_password() {
                        Some(f)
                    } else {
                        None
                    },
                    None => None,
                };
                Ok(
                    Authenticator {
                        app_secrets,
                        auth_flow: flow,
                        acquisition: BearerTokenFuture::Fixed(Some(t)),
                        generation: 0,
                    },
                )
            },
            None => match auth_flow {
                Some(f) => {
                    let acquisition = BearerTokenFuture::new(&f, &app_secrets);
                    let flow = if f.is_password() {
                        Some(f)
                    } else {
                        None
                    };
                    Ok(Authenticator { app_secrets, auth_flow: flow, acquisition, generation: 0 })
                },
                None => Err(SnooBuilderError::MissingAuthFlow),
            },
        }
    }

    /// The generation of the currently installed acquisition.
    pub fn generation(&self) -> (r: u64)
        ensures
            r == self.spec_generation(),
    {
        self.generation
    }

    /// Applies the renewal policy and returns a handle to the acquisition
    /// that is installed afterwards.
    ///
    /// In precedence order: an expired, refreshable credential is renewed
    /// opportunistically by a refresh-token exchange that leaves the
    /// strategy slot untouched (rule 1); otherwise, if a strategy is
    /// stored and renewal is forced or the credential is expired beyond
    /// refresh, the strategy is replayed, and put back only if it is
    /// reusable (rule 2); otherwise nothing changes and the caller shares
    /// the existing acquisition.
    pub fn bearer_token(&mut self, renew: bool, now: u64) -> (h: SharedBearerTokenFuture)
        requires
            old(self).well_formed(),
            old(self).spec_generation() < u64::MAX,
        ensures
            final(self).well_formed(),
            final(self).spec_secrets() == old(self).spec_secrets(),
            h.generation == final(self).spec_generation(),
            if old(self).spec_rule_refresh(now) {
                &&& final(self).spec_flow() == old(self).spec_flow()
                &&& final(self).spec_generation() == old(self).spec_generation() + 1
                &&& match (old(self).spec_acquisition().spec_peek(), final(self).spec_acquisition()) {
                    (Some(t), BearerTokenFuture::Pending(req)) => match t.spec_refresh_token() {
                        Some(rt) => spec_refresh_request_matches(req, rt, old(self).spec_secrets()),
                        None => false,
                    },
                    _ => false,
                }
            } else if old(self).spec_rule_reauth(renew, now) {
                &&& final(self).spec_generation() == old(self).spec_generation() + 1
                &&& match (old(self).spec_flow(), final(self).spec_acquisition()) {
                    (Some(f), BearerTokenFuture::Pending(req)) => {
                        &&& spec_request_matches(req, f, old(self).spec_secrets())
                        &&& final(self).spec_flow() == (if f is Password {
                            Some(f)
                        } else {
                            None::<AuthFlow>
                        })
                    },
                    _ => false,
                }
            } else {
                *final(self) == *old(self)
            },
    {
        let mut refresh_token: Option<String> = None;
        match self.acquisition.peek() {
            Some(t) => {
                if t.is_expired(now) {
                    match t.refresh_token() {
                        Some(rt) => {
                            refresh_token = Some(rt.to_owned());
                        },
                        None => {},
                    }
                }
            },
            None => {},
        }
        match refresh_token {
            Some(rt) => {
                // Rule 1: synthesize a transient refresh-token exchange;
                // the stored strategy is never touched by a refresh.
                let flow = AuthFlow::RefreshToken(rt);
                self.acquisition = BearerTokenFuture::new(&flow, &self.app_secrets);
                self.generation = self.generation + 1;
            },
            None => {
                let mut expired_plain = false;
                match self.acquisition.peek() {
                    Some(t) => {
                        if t.is_expired(now) && !t.is_renewable() {
                            expired_plain = true;
                        }
                    },
                    None => {},
                }
                if self.auth_flow.is_some() && (renew || expired_plain) {
                    // Rule 2: replay the stored strategy; only a reusable
                    // strategy goes back into the slot.
                    let flow = self.auth_flow.take().unwrap();
                    self.acquisition = BearerTokenFuture::new(&flow, &self.app_secrets);
                    self.generation = self.generation + 1;
                    if flow.is_password() {
                        self.auth_flow = Some(flow);
                    }
                }
            },
        }
        SharedBearerTokenFuture { generation: self.generation }
    }

    /// The request of the in-flight exchange, if one is waiting for the
    /// host to drive it.
    pub fn pending_request(&self) -> (r: Option<&TokenRequest>)
        ensures
            match r {
                Some(req) => self.spec_acquisition() == BearerTokenFuture::Pending(*req),
                None => !(self.spec_acquisition() is Pending),
            },
    {
        match &self.acquisition {
            BearerTokenFuture::Pending(req) => Some(req),
            _ => None,
        }
    }

    /// Installs the outcome of the exchange the handle was obtained for
    /// as the acquisition's terminal value, stamped at the given second.
    ///
    /// A no-op unless that very exchange is still the one in flight: an
    /// outcome arriving for a superseded handle is discarded, so a stale
    /// response can never resolve an acquisition installed later.  The
    /// installed value is memoized: every holder of the current handle
    /// observes it identically.
    pub fn deliver(&mut self, handle: &SharedBearerTokenFuture, outcome: ExchangeOutcome, now: u64)
        requires
            old(self).well_formed(),
        ensures
            final(self).well_formed(),
            final(self).spec_secrets() == old(self).spec_secrets(),
            final(self).spec_flow() == old(self).spec_flow(),
            final(self).spec_generation() == old(self).spec_generation(),
            if handle.generation == old(self).spec_generation() && old(self).spec_acquisition()
                is Pending {
                final(self).spec_acquisition() matches BearerTokenFuture::Resolved(res)
                    && spec_outcome_resolution(outcome, now, res)
            } else {
                *final(self) == *old(self)
            },
    {
        if handle.generation != self.generation {
            return;
        }
        let mut pending = false;
        match &self.acquisition {
            BearerTokenFuture::Pending(_) => {
                pending = true;
            },
            _ => {},
        }
        if pending {
            let res = resolve_exchange(outcome, now);
            self.acquisition.resolve_with(res);
        }
    }

    /// Observes the acquisition a handle refers to.
    ///
    /// A handle whose generation has been superseded observes nothing: its
    /// acquisition was replaced under the policy.  A pre-supplied
    /// credential is memoized on first observation, so that every later
    /// holder sees the same value.  A resolved acquisition answers the
    /// same credential or error every time, without re-running anything.
    pub fn poll(&mut self, handle: &SharedBearerTokenFuture) -> (r: Option<BearerTokenPoll>)
        requires
            old(self).well_formed(),
        ensures
            final(self).well_formed(),
            final(self).spec_secrets() == old(self).spec_secrets(),
            final(self).spec_flow() == old(self).spec_flow(),
            final(self).spec_generation() == old(self).spec_generation(),
            if handle.generation != old(self).spec_generation() {
                r is None && *final(self) == *old(self)
            } else {
                match old(self).spec_acquisition() {
                    BearerTokenFuture::Fixed(Some(t)) => {
                        &&& r matches Some(BearerTokenPoll::Ready(t2))
                            && BearerToken::spec_same_credential(&t2, &t)
                        &&& final(self).spec_acquisition() matches BearerTokenFuture::Resolved(
                            res,
                        ) && res matches Ok(t3) && BearerToken::spec_same_credential(&t3, &t)
                    },
                    BearerTokenFuture::Fixed(None) => true,
                    BearerTokenFuture::Pending(_) => {
                        &&& r == Some(BearerTokenPoll::NotReady)
                        &&& *final(self) == *old(self)
                    },
                    BearerTokenFuture::Resolved(Ok(t)) => {
                        &&& r matches Some(BearerTokenPoll::Ready(t2))
                            && BearerToken::spec_same_credential(&t2, &t)
                        &&& *final(self) == *old(self)
                    },
                    BearerTokenFuture::Resolved(Err(e)) => {
                        &&& r == Some(BearerTokenPoll::Failed(e))
                        &&& *final(self) == *old(self)
                    },
                }
            },
    {
        if handle.generation != self.generation {
            return None;
        }
        match &mut self.acquisition {
            BearerTokenFuture::Fixed(slot) => {
                let t = slot.take().unwrap();
                let out = t.duplicate();
                self.acquisition = BearerTokenFuture::Resolved(Ok(t));
                Some(BearerTokenPoll::Ready(out))
            },
            BearerTokenFuture::Pending(_) => Some(BearerTokenPoll::NotReady),
            BearerTokenFuture::Resolved(Ok(t)) => Some(BearerTokenPoll::Ready(t.duplicate())),
            BearerTokenFuture::Resolved(Err(e)) => Some(BearerTokenPoll::Failed(*e)),
        }
    }
}

/// While an exchange is in flight, obtaining without force installs
/// nothing new: neither rule fires, so `bearer_token` returns a handle to
/// the same acquisition and no duplicate request is started.  Callers that
/// obtain concurrently therefore share one outcome.
pub proof fn lemma_pending_shares_acquisition(a: &Authenticator, now: u64)
    requires
        a.spec_acquisition() is Pending,
    ensures
        !a.spec_rule_refresh(now),
        !a.spec_rule_reauth(false, now),
{
}

/// Rule 1 takes precedence: an expired credential that carries a refresh
/// token is renewed by a refresh-token exchange — whatever strategy is
/// stored, and even when renewal is forced — and `bearer_token` then
/// leaves the strategy slot untouched.
pub proof fn lemma_refresh_has_precedence(a: &Authenticator, now: u64)
    requires
        a.spec_acquisition().spec_peek() matches Some(t) && t.spec_is_expired(now)
            && t.spec_refresh_token() is Some,
    ensures
        a.spec_rule_refresh(now),
        forall|renew: bool| !a.spec_rule_reauth(renew, now),
{
}

/// An expired credential without a refresh token, with a strategy stored,
/// is renewed by replaying that strategy (rule 2) even without force; by
/// `bearer_token`, a password strategy is put back for future renewals.
pub proof fn lemma_expired_uses_stored_strategy(a: &Authenticator, now: u64)
    requires
        a.spec_acquisition().spec_peek() matches Some(t) && t.spec_is_expired(now)
            && t.spec_refresh_token() is None,
        a.spec_flow() is Some,
    ensures
        !a.spec_rule_refresh(now),
        a.spec_rule_reauth(false, now),
{
}

/// Once the strategy slot is empty and the cached credential has no
/// refresh token, no rule can fire: obtaining — even forced — returns the
/// cached acquisition unchanged.  This is the deliberate best-effort
/// terminal state.
pub proof fn lemma_consumed_strategy_is_terminal(a: &Authenticator, renew: bool, now: u64)
    requires
        a.spec_flow() is None,
        match a.spec_acquisition().spec_peek() {
            Some(t) => t.spec_refresh_token() is None,
            None => true,
        },
    ensures
        !a.spec_rule_refresh(now),
        !a.spec_rule_reauth(renew, now),
{
}

/// A cached failure is never treated as expired or renewable: without
/// force it stays installed, and a caller recovers only by forcing a
/// renewal while a strategy remains.
pub proof fn lemma_cached_failure_needs_force(a: &Authenticator, now: u64)
    requires
        a.spec_acquisition() matches BearerTokenFuture::Resolved(res) && res is Err,
    ensures
        !a.spec_rule_refresh(now),
        !a.spec_rule_reauth(false, now),
{
}

} // verus!
