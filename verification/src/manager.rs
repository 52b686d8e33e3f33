//! The lifecycle orchestration: load, evaluate, refresh when needed,
//! persist the refreshed record, and hand back a usable token.

use vstd::prelude::*;

use crate::expiry::{lemma_distant_expiry_needs_no_refresh, needs_refresh, refresh_needed, remaining_lifetime, remaining_secs, REFRESH_THRESHOLD_SECS};
use crate::gateway::{RefreshError, RefreshGateway};
use crate::record::TokenRecord;
use crate::store::{StoreView, TokenStore};

verus! {

/// Why no usable token could be produced.
#[derive(Clone, Copy, Debug, PartialEq, Eq, Structural)]
pub enum LifecycleError {
    /// No usable cached token: the storage is missing or corrupt, and the
    /// user must run the out-of-scope authorization flow.
    NoCredential,
    /// A refresh is needed but the record carries no refresh token.
    CannotRefresh,
    /// The authorization server rejected the refresh token.
    RefreshDenied,
    /// A transport-level failure kept the refresh from completing.
    NetworkError,
}

/// A token ready for one API round-trip.
pub struct UsableToken {
    /// The record to authenticate with.
    pub record: TokenRecord,
    /// True when a freshly refreshed record could not be persisted: the
    /// in-memory token is still valid, but the cache was not updated.
    /// Warning-level, never a hard failure.
    pub write_warning: bool,
}

/// Produces a token usable at wall-clock instant `now`.
///
/// Loads the stored record, refreshes it through `gateway` when its
/// remaining lifetime is unknown or under the threshold, persists the
/// refreshed record, and returns the in-memory record either way. At most
/// one refresh is attempted, and none when the stored record is still
/// fresh or carries no refresh token.
pub fn get_usable_token<S: TokenStore, G: RefreshGateway>(
    store: &mut S,
    gateway: &mut G,
    now: i64,
) -> (r: Result<UsableToken, LifecycleError>)
    requires
        old(store).inv(),
        old(gateway).inv(),
        0 <= now < i64::MAX,
    ensures
        final(store).inv(),
        final(gateway).inv(),
        ({
            let pre = old(store).stored();
            let untouched = final(store).stored() == pre
                && final(gateway).calls() == old(gateway).calls();
            match pre {
                StoreView::Missing => (r matches Err(e) && e == LifecycleError::NoCredential) && untouched,
                StoreView::Damaged => (r matches Err(e) && e == LifecycleError::NoCredential) && untouched,
                StoreView::Present(v) => {
                    if !refresh_needed(remaining_secs(v.expires_at, now as int)) {
                        untouched && match r {
                            Ok(u) => u.record@ == v && u.write_warning == false,
                            Err(_) => false,
                        }
                    } else if v.refresh_token is None {
                        (r matches Err(e) && e == LifecycleError::CannotRefresh) && untouched
                    } else {
                        final(gateway).calls() == old(gateway).calls() + 1 && match r {
                            Ok(u) => {
                                &&& u.record.wf()
                                &&& u.record@.expires_at matches Some(t) && t > now
                                &&& u.record@.refresh_token is Some
                                &&& u.record@.client_id == v.client_id
                                &&& u.record@.client_secret == v.client_secret
                                &&& u.record@.login == v.login
                                &&& u.record@.user_id == v.user_id
                                &&& u.record@.scopes == v.scopes
                                &&& if u.write_warning {
                                    final(store).stored() == pre
                                } else {
                                    final(store).stored() == StoreView::Present(u.record@)
                                }
                            },
                            Err(e) => {
                                &&& e == LifecycleError::RefreshDenied || e
                                    == LifecycleError::NetworkError
                                &&& final(store).stored() == pre
                            },
                        }
                    }
                },
            }
        }),
{
    let record = match store.load() {
        Ok(rec) => rec,
        Err(_) => {
            return Err(LifecycleError::NoCredential);
        },
    };
    let remaining = remaining_lifetime(&record, now);
    if !needs_refresh(&remaining) {
        return Ok(UsableToken { record, write_warning: false });
    }
    if record.refresh_token.is_none() {
        return Err(LifecycleError::CannotRefresh);
    }
    let refreshed = match gateway.refresh(&record, now) {
        Ok(nr) => nr,
        Err(RefreshError::Denied) => {
            return Err(LifecycleError::RefreshDenied);
        },
        Err(RefreshError::Network) => {
            return Err(LifecycleError::NetworkError);
        },
    };
    let write_warning = match store.save(&refreshed) {
        Ok(()) => false,
        Err(_) => true,
    };
    Ok(UsableToken { record: refreshed, write_warning })
}

/// Law: a stored record expiring more than one hour past `now` is handed
/// back unchanged, with no network call and no store write.
pub fn fresh_record_passthrough<S: TokenStore, G: RefreshGateway>(
    store: &mut S,
    gateway: &mut G,
    now: i64,
) -> (r: Result<UsableToken, LifecycleError>)
    requires
        old(store).inv(),
        old(gateway).inv(),
        0 <= now < i64::MAX,
        old(store).stored() matches StoreView::Present(v) && (v.expires_at matches Some(t) && t
            - now > REFRESH_THRESHOLD_SECS as int),
    ensures
        final(store).inv(),
        final(gateway).inv(),
        final(store).stored() == old(store).stored(),
        final(gateway).calls() == old(gateway).calls(),
        r matches Ok(u) && old(store).stored() == StoreView::Present(u.record@)
            && !u.write_warning,
{
    proof {
        match old(store).stored() {
            StoreView::Present(v) => match v.expires_at {
                Some(t) => lemma_distant_expiry_needs_no_refresh(t, now as int),
                None => assert(false),
            },
            _ => assert(false),
        }
    }
    get_usable_token(store, gateway, now)
}

/// Law: whenever `get_usable_token` succeeds and no write warning was
/// raised, a subsequent load from the same store yields exactly the record
/// that was returned — in particular a freshly refreshed record is the one
/// persisted.
pub fn usable_token_survives_reload<S: TokenStore, G: RefreshGateway>(
    store: &mut S,
    gateway: &mut G,
    now: i64,
) -> (r: Result<(UsableToken, Option<TokenRecord>), LifecycleError>)
    requires
        old(store).inv(),
        old(gateway).inv(),
        0 <= now < i64::MAX,
    ensures
        final(store).inv(),
        final(gateway).inv(),
        match r {
            Ok((u, reloaded)) => !u.write_warning ==> (reloaded matches Some(rec) && rec@
                == u.record@),
            Err(_) => true,
        },
{
    match get_usable_token(store, gateway, now) {
        Ok(u) => {
            if u.write_warning {
                Ok((u, None))
            } else {
                match store.load() {
                    Ok(rec) => Ok((u, Some(rec))),
                    Err(_) => vstd::pervasive::unreached(),
                }
            }
        },
        Err(e) => Err(e),
    }
}

} // verus!
