//! Pure expiry policy: how much lifetime a record has left, and whether
//! that warrants a refresh.

use vstd::prelude::*;

use crate::record::TokenRecord;

verus! {

/// Refresh proactively whenever less than this many seconds of lifetime
/// remain, so the token stays valid for the API call that follows.
pub const REFRESH_THRESHOLD_SECS: u64 = 3600;

/// Remaining lifetime of a record: a non-negative number of seconds, or
/// unknown when the record carries no expiry timestamp.
#[derive(Clone, Copy, Debug, PartialEq, Eq, Structural)]
pub enum Remaining {
    Known(u64),
    Unknown,
}

impl View for Remaining {
    type V = Option<int>;

    open spec fn view(&self) -> Option<int> {
        match *self {
            Remaining::Known(d) => Some(d as int),
            Remaining::Unknown => None,
        }
    }
}

/// Model of the remaining lifetime: `expires_at - now`, clamped to zero,
/// or `None` when the expiry instant is unknown.
pub open spec fn remaining_secs(expires_at: Option<int>, now: int) -> Option<int> {
    match expires_at {
        Some(t) => if t <= now {
            Some(0)
        } else {
            Some(t - now)
        },
        None => None,
    }
}

/// Model of the refresh decision: renew when the lifetime is unknown or
/// under the threshold.
pub open spec fn refresh_needed(remaining: Option<int>) -> bool {
    match remaining {
        Some(d) => d < REFRESH_THRESHOLD_SECS as int,
        None => true,
    }
}

/// Remaining lifetime of `record` at wall-clock instant `now`.
///
/// Never negative: an already-expired record has zero remaining lifetime.
pub fn remaining_lifetime(record: &TokenRecord, now: i64) -> (r: Remaining)
    requires
        now >= 0,
    ensures
        r@ == remaining_secs(record@.expires_at, now as int),
{
    match record.expires_at {
        Some(t) => if t <= now {
            Remaining::Known(0)
        } else {
            Remaining::Known((t - now) as u64)
        },
        None => Remaining::Unknown,
    }
}

/// Whether the remaining lifetime warrants a refresh.
pub fn needs_refresh(remaining: &Remaining) -> (r: bool)
    ensures
        r == refresh_needed(remaining@),
{
    match *remaining {
        Remaining::Known(d) => d < REFRESH_THRESHOLD_SECS,
        Remaining::Unknown => true,
    }
}

/// Law: a record expiring more than one hour past `now` needs no refresh.
pub proof fn lemma_distant_expiry_needs_no_refresh(t: int, now: int)
    requires
        t - now > REFRESH_THRESHOLD_SECS as int,
    ensures
        !refresh_needed(remaining_secs(Some(t), now)),
{
}

/// Law: a record whose expiry lies at or before `now`, or that has no
/// expiry at all, needs a refresh.
pub proof fn lemma_stale_or_unknown_needs_refresh(expires_at: Option<int>, now: int)
    requires
        expires_at matches Some(t) ==> t <= now,
    ensures
        refresh_needed(remaining_secs(expires_at, now)),
{
}

} // verus!
