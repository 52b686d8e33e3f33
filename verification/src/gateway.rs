//! The authorization-server collaborator: exchanges a refresh token for a
//! new access token.
//!
//! The gateway is an interface consumed by the lifecycle manager. The
//! verified scripted implementation backs tests and proofs; a network
//! implementation lives with the surrounding program.

use vstd::prelude::*;

use crate::record::{Secret, TokenRecord};

verus! {

/// Why a refresh failed.
#[derive(Clone, Copy, Debug, PartialEq, Eq, Structural)]
pub enum RefreshError {
    /// The authorization server rejected the refresh token.
    Denied,
    /// A transport-level failure kept the exchange from completing.
    Network,
}

/// Exchange of a refresh token for a freshly minted access token.
///
/// A successful exchange yields a well-formed record that expires strictly
/// after `now`, keeps the account and client identity of the old record,
/// preserves its scopes, and carries a refresh token (the old one, unless
/// the server issued a new one). Every call, successful or not, is counted.
pub trait RefreshGateway: Sized {
    /// Implementation-specific well-formedness, established by the
    /// implementation's constructors and preserved by every method.
    /// Holds trivially for an implementation that does not refine it.
    open spec fn inv(&self) -> bool {
        true
    }

    /// How many exchanges this gateway has performed. An implementation
    /// that supplies no count (one written outside the verifier) is
    /// modelled as making none.
    open spec fn calls(&self) -> nat {
        0
    }

    /// Performs one exchange at wall-clock instant `now`.
    fn refresh(&mut self, record: &TokenRecord, now: i64) -> (r: Result<
        TokenRecord,
        RefreshError,
    >)
        requires
            old(self).inv(),
            record.wf(),
            record@.refresh_token is Some,
            0 <= now < i64::MAX,
        ensures
            final(self).inv(),
            final(self).calls() == old(self).calls() + 1,
            match r {
                Ok(nr) => nr.wf() && (nr@.expires_at matches Some(t) && t > now)
                    && nr@.refresh_token is Some && nr@.client_id == record@.client_id
                    && nr@.client_secret == record@.client_secret && nr@.login == record@.login
                    && nr@.user_id == record@.user_id && nr@.scopes == record@.scopes,
                Err(_) => true,
            },
    ;
}

/// How a scripted gateway answers.
#[derive(Clone, Copy, Debug, PartialEq, Eq, Structural)]
pub enum ScriptedOutcome {
    /// Grant a fresh access token.
    Grant,
    /// Reject the refresh token.
    Deny,
    /// Fail at the transport level.
    Disconnect,
}

/// An in-memory gateway with a scripted answer: the substitutable fake
/// that tests and laws run against.
pub struct ScriptedGateway {
    outcome: ScriptedOutcome,
    new_access: Secret,
    lifetime_secs: u32,
    refresh_log: Vec<i64>,
}

impl ScriptedGateway {
    /// A gateway that grants `new_access` with `lifetime_secs` of validity.
    pub fn granting(new_access: String, lifetime_secs: u32) -> (g: Self)
        requires
            new_access@.len() > 0,
            lifetime_secs >= 1,
        ensures
            g.inv(),
            g.calls() == 0,
    {
        ScriptedGateway {
            outcome: ScriptedOutcome::Grant,
            new_access: Secret::new(new_access),
            lifetime_secs,
            refresh_log: Vec::new(),
        }
    }

    /// A gateway that rejects every refresh token.
    pub fn denying() -> (g: Self)
        ensures
            g.inv(),
            g.calls() == 0,
    {
        proof {
            reveal_strlit("unissued");
        }
        ScriptedGateway {
            outcome: ScriptedOutcome::Deny,
            new_access: Secret::new(String::from_str("unissued")),
            lifetime_secs: 1,
            refresh_log: Vec::new(),
        }
    }

    /// A gateway whose transport always fails.
    pub fn unreachable_server() -> (g: Self)
        ensures
            g.inv(),
            g.calls() == 0,
    {
        proof {
            reveal_strlit("unissued");
        }
        ScriptedGateway {
            outcome: ScriptedOutcome::Disconnect,
            new_access: Secret::new(String::from_str("unissued")),
            lifetime_secs: 1,
            refresh_log: Vec::new(),
        }
    }

    /// How many exchanges were performed, for observation in tests.
    pub fn call_count(&self) -> (n: usize)
        ensures
            n == self.calls(),
    {
        self.refresh_log.len()
    }
}

impl RefreshGateway for ScriptedGateway {
    closed spec fn inv(&self) -> bool {
        self.new_access@.len() > 0 && self.lifetime_secs >= 1
    }

    closed spec fn calls(&self) -> nat {
        self.refresh_log@.len()
    }

    fn refresh(&mut self, record: &TokenRecord, now: i64) -> (r: Result<
        TokenRecord,
        RefreshError,
    >) {
        self.refresh_log.push(now);
        match self.outcome {
            ScriptedOutcome::Grant => {
                let lifetime: i64 = self.lifetime_secs as i64;
                let expires_at: i64 = if now <= i64::MAX - lifetime {
                    now + lifetime
                } else {
                    i64::MAX
                };
                let mut refreshed = record.clone();
                refreshed.access_token = self.new_access.clone();
                refreshed.expires_at = Some(expires_at);
                Ok(refreshed)
            },
            ScriptedOutcome::Deny => Err(RefreshError::Denied),
            ScriptedOutcome::Disconnect => Err(RefreshError::Network),
        }
    }
}

} // verus!
