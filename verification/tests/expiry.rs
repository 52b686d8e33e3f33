use token_lifecycle::expiry::{needs_refresh, remaining_lifetime, Remaining, REFRESH_THRESHOLD_SECS};
use token_lifecycle::record::{Secret, TokenRecord};

fn record_expiring_at(expires_at: Option<i64>) -> TokenRecord {
    TokenRecord {
        access_token: Secret::new(String::from("old-access-token")),
        refresh_token: Some(Secret::new(String::from("stored-refresh-token"))),
        client_id: String::from("client-id"),
        client_secret: None,
        login: String::from("streamer"),
        user_id: String::from("1234"),
        expires_at,
        scopes: None,
    }
}

#[test]
fn remaining_lifetime_is_exact_difference() {
    let now: i64 = 1_000_000;
    let rec = record_expiring_at(Some(now + 30));
    assert_eq!(remaining_lifetime(&rec, now), Remaining::Known(30));
}

#[test]
fn remaining_lifetime_clamps_past_expiry_to_zero() {
    let now: i64 = 1_000_000;
    let rec = record_expiring_at(Some(now - 500));
    assert_eq!(remaining_lifetime(&rec, now), Remaining::Known(0));
    let rec = record_expiring_at(Some(now));
    assert_eq!(remaining_lifetime(&rec, now), Remaining::Known(0));
}

#[test]
fn remaining_lifetime_without_expiry_is_unknown() {
    let rec = record_expiring_at(None);
    assert_eq!(remaining_lifetime(&rec, 1_000_000), Remaining::Unknown);
}

#[test]
fn more_than_one_hour_left_needs_no_refresh() {
    assert!(!needs_refresh(&Remaining::Known(7200)));
    assert!(!needs_refresh(&Remaining::Known(REFRESH_THRESHOLD_SECS)));
}

#[test]
fn under_one_hour_needs_refresh() {
    assert!(needs_refresh(&Remaining::Known(REFRESH_THRESHOLD_SECS - 1)));
    assert!(needs_refresh(&Remaining::Known(30)));
    assert!(needs_refresh(&Remaining::Known(0)));
}

#[test]
fn unknown_lifetime_needs_refresh() {
    assert!(needs_refresh(&Remaining::Unknown));
}
