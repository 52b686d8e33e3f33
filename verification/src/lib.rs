//! Credential lifecycle management for a short-lived status-line tool.
//!
//! Each invocation of the tool loads a persisted OAuth2 token record,
//! decides whether the access token is still usable, refreshes it against
//! the authorization server when it is not, persists the refreshed record,
//! and hands a usable token back to the caller.

pub mod expiry;
pub mod gateway;
pub mod manager;
pub mod record;
pub mod store;
