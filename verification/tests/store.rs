use token_lifecycle::record::{Secret, TokenRecord};
use token_lifecycle::store::{save_then_load, InMemoryStore, StoreError, TokenStore};

fn sample_record() -> TokenRecord {
    TokenRecord {
        access_token: Secret::new(String::from("old-access-token")),
        refresh_token: Some(Secret::new(String::from("stored-refresh-token"))),
        client_id: String::from("client-id"),
        client_secret: Some(Secret::new(String::from("stored-client-secret"))),
        login: String::from("streamer"),
        user_id: String::from("1234"),
        expires_at: Some(1_700_000_000),
        scopes: Some(vec![String::from("channel:read:subscriptions")]),
    }
}

fn assert_records_equal(a: &TokenRecord, b: &TokenRecord) {
    assert_eq!(a.access_token.expose(), b.access_token.expose());
    assert_eq!(
        a.refresh_token.as_ref().map(|s| s.expose()),
        b.refresh_token.as_ref().map(|s| s.expose())
    );
    assert_eq!(a.client_id, b.client_id);
    assert_eq!(
        a.client_secret.as_ref().map(|s| s.expose()),
        b.client_secret.as_ref().map(|s| s.expose())
    );
    assert_eq!(a.login, b.login);
    assert_eq!(a.user_id, b.user_id);
    assert_eq!(a.expires_at, b.expires_at);
    assert_eq!(a.scopes, b.scopes);
}

#[test]
fn save_followed_by_load_round_trips_every_field() {
    let record = sample_record();
    let mut store = InMemoryStore::new_empty();
    assert!(store.save(&record).is_ok());
    let loaded = store.load().expect("a saved record loads back");
    assert_records_equal(&record, &loaded);
}

#[test]
fn save_then_load_law_on_concrete_values() {
    let record = sample_record();
    let mut store = InMemoryStore::new_empty();
    let loaded = save_then_load(&mut store, &record).expect("save succeeds in memory");
    assert_records_equal(&record, &loaded);
}

#[test]
fn loading_an_empty_store_reports_not_found() {
    let store = InMemoryStore::new_empty();
    assert_eq!(store.load().err(), Some(StoreError::NotFound));
}

#[test]
fn loading_damaged_content_reports_corrupt() {
    let store = InMemoryStore::new_damaged();
    assert_eq!(store.load().err(), Some(StoreError::Corrupt));
}

#[test]
fn failed_save_reports_write_failed_and_keeps_prior_content() {
    let prior = sample_record();
    let mut store = InMemoryStore::with_record(prior.clone());
    store.make_saves_fail();

    let mut replacement = sample_record();
    replacement.access_token = Secret::new(String::from("new-access-token"));
    assert_eq!(store.save(&replacement).err(), Some(StoreError::WriteFailed));

    let loaded = store.load().expect("prior record is intact");
    assert_records_equal(&prior, &loaded);
}

#[test]
fn save_replaces_prior_content_in_full() {
    let mut store = InMemoryStore::with_record(sample_record());
    let mut replacement = sample_record();
    replacement.access_token = Secret::new(String::from("new-access-token"));
    replacement.expires_at = None;
    replacement.scopes = None;
    assert!(store.save(&replacement).is_ok());
    let loaded = store.load().expect("replacement loads back");
    assert_records_equal(&replacement, &loaded);
}
