//! The per-login validation state machine behind the loopback callback
//! route. One login attempt is outstanding at a time; the machine decides,
//! for each received callback, whether the provider denied the request,
//! the code is missing, the round-tripped `state` fails the nonce check,
//! or a code-for-token exchange may proceed — and it resolves exactly once
//! per attempt.

use vstd::prelude::*;
use crate::exchange::{ExchangeError, TokenSet};

verus! {

/// The query parameters of the provider's redirect.
#[derive(Clone, Debug)]
pub struct CallbackQuery {
    pub code: Option<String>,
    pub state: Option<String>,
    pub error: Option<String>,
}

/// Why a login attempt failed.
#[derive(Clone, Debug, PartialEq, Eq)]
pub enum FailureReason {
    /// The provider reported an `error` parameter (its value kept).
    UserDenied(String),
    /// The callback carried neither an error nor a code.
    MissingCode,
    /// The callback's `state` did not equal the outstanding nonce, or no
    /// login was outstanding.
    NonceMismatch,
    /// The code-for-token exchange failed.
    ExchangeFailed(ExchangeError),
    /// No callback arrived before the consumer's deadline.
    Timeout,
}

/// What one login attempt came to: a usable access token, or a typed
/// failure.
#[derive(Clone, Debug)]
pub enum Outcome {
    Success(String),
    Failure(FailureReason),
}

/// Where one login attempt stands.
pub enum SessionState {
    /// No login outstanding.
    Idle,
    /// An authorization request with this nonce is outstanding.
    Awaiting { nonce: String },
    /// The callback passed validation and the exchange for this code is
    /// under way; the nonce is consumed.
    Exchanging { code: String },
    /// Terminal for this attempt.
    Resolved { outcome: Outcome },
}

/// What the listener must do after validating one callback.
#[derive(Clone, Debug)]
pub enum Directive {
    /// Perform exactly one code-for-token exchange with this code.
    Exchange { code: String },
    /// Publish this outcome; no exchange takes place.
    Publish { outcome: Outcome },
}

/// Whether the callback's `state` equals the outstanding nonce.
pub open spec fn nonce_matches(state: Option<String>, session: SessionState) -> bool {
    &&& session matches SessionState::Awaiting { nonce }
    &&& state matches Some(s) && s@ == nonce@
}

/// The validation state machine for the single outstanding login attempt.
pub struct LoginSession {
    pub state: SessionState,
}

impl LoginSession {
    /// A session with no login outstanding.
    pub fn new() -> (s: LoginSession)
        ensures
            s.state is Idle,
    {
        LoginSession { state: SessionState::Idle }
    }

    /// Starts a login attempt: the given nonce becomes the one outstanding
    /// request, invalidating whatever was outstanding before.
    pub fn begin_login(&mut self, nonce: String)
        ensures
            final(self).state == (SessionState::Awaiting { nonce }),
    {
        self.state = SessionState::Awaiting { nonce };
    }

    /// Validates one received callback, in the fixed order: a provider
    /// `error` denies the attempt; a missing `code` fails it; a `state`
    /// unequal to the outstanding nonce (or no outstanding login) is a
    /// nonce mismatch; only a matching callback directs the listener to
    /// perform the exchange. Every branch but the match resolves the
    /// attempt; the match consumes the nonce, so no later callback can
    /// direct a second exchange for it.
    pub fn handle_callback(&mut self, q: &CallbackQuery) -> (d: Directive)
        ensures
            q.error matches Some(e) ==> (d == Directive::Publish {
                outcome: Outcome::Failure(FailureReason::UserDenied(e)),
            } && final(self).state == (SessionState::Resolved {
                outcome: Outcome::Failure(FailureReason::UserDenied(e)),
            })),
            q.error is None && q.code is None ==> (d == Directive::Publish {
                outcome: Outcome::Failure(FailureReason::MissingCode),
            } && final(self).state == (SessionState::Resolved {
                outcome: Outcome::Failure(FailureReason::MissingCode),
            })),
            (q.error is None && q.code is Some && !nonce_matches(q.state, old(self).state)) ==> (d
                == Directive::Publish { outcome: Outcome::Failure(FailureReason::NonceMismatch) }
                && final(self).state == (SessionState::Resolved {
                outcome: Outcome::Failure(FailureReason::NonceMismatch),
            })),
            q.error is None ==> (q.code matches Some(c) ==> (nonce_matches(
                q.state,
                old(self).state,
            ) ==> (d == Directive::Exchange { code: c } && final(self).state == (
            SessionState::Exchanging { code: c })))),
            d is Exchange <==> (q.error is None && q.code is Some && nonce_matches(
                q.state,
                old(self).state,
            )),
    {
        if let Some(e) = &q.error {
            let outcome = Outcome::Failure(FailureReason::UserDenied(e.clone()));
            self.state = SessionState::Resolved {
                outcome: Outcome::Failure(FailureReason::UserDenied(e.clone())),
            };
            return Directive::Publish { outcome };
        }
        let code = match &q.code {
            Some(c) => c,
            None => {
                self.state = SessionState::Resolved {
                    outcome: Outcome::Failure(FailureReason::MissingCode),
                };
                return Directive::Publish {
                    outcome: Outcome::Failure(FailureReason::MissingCode),
                };
            },
        };
        let matches_nonce: bool = match (&q.state, &self.state) {
            (Some(s), SessionState::Awaiting { nonce }) => s.eq(nonce),
            _ => false,
        };
        assert(matches_nonce == nonce_matches(q.state, old(self).state));
        if !matches_nonce {
            self.state = SessionState::Resolved {
                outcome: Outcome::Failure(FailureReason::NonceMismatch),
            };
            return Directive::Publish { outcome: Outcome::Failure(FailureReason::NonceMismatch) };
        }
        self.state = SessionState::Exchanging { code: code.clone() };
        Directive::Exchange { code: code.clone() }
    }

    /// Resolves the attempt with what the exchange produced: the token's
    /// access token on success, the typed exchange failure otherwise.
    pub fn complete_exchange(&mut self, result: Result<TokenSet, ExchangeError>) -> (o: Outcome)
        requires
            old(self).state is Exchanging,
        ensures
            result matches Ok(t) ==> o == Outcome::Success(t.access_token),
            result matches Err(e) ==> o == Outcome::Failure(FailureReason::ExchangeFailed(e)),
            final(self).state == (SessionState::Resolved { outcome: o }),
    {
        match result {
            Ok(t) => {
                let a = t.access_token;
                self.state = SessionState::Resolved { outcome: Outcome::Success(a.clone()) };
                Outcome::Success(a)
            },
            Err(e) => {
                self.state = SessionState::Resolved {
                    outcome: Outcome::Failure(FailureReason::ExchangeFailed(e.duplicate())),
                };
                Outcome::Failure(FailureReason::ExchangeFailed(e))
            },
        }
    }
}

/// A session whose nonce is consumed (or that never held one) matches no
/// callback `state` at all: after a directed exchange or a resolution, no
/// further callback can direct a second exchange for the same attempt.
pub proof fn lemma_consumed_nonce_rejects(state: Option<String>, s: SessionState)
    requires
        !(s is Awaiting),
    ensures
        !nonce_matches(state, s),
{
}

/// Issuing login A, then login B before A's callback arrives, leaves only
/// B's nonce outstanding: a callback that round-trips A's nonce fails the
/// nonce check whenever the two nonces differ, and no exchange is
/// directed for it.
pub proof fn lemma_superseded_login_rejected(
    nonce_a: Seq<char>,
    nonce_b: Seq<char>,
    s: SessionState,
    q: CallbackQuery,
)
    requires
        nonce_a != nonce_b,
        s matches SessionState::Awaiting { nonce } && nonce@ == nonce_b,
        q.state matches Some(st) && st@ == nonce_a,
    ensures
        !nonce_matches(q.state, s),
{
}

} // verus!
