//! Core of a management client for a cloud identity provider: the
//! client-credentials exchange, the cached access token, the refresh
//! schedule and the signing of outgoing requests.
//!
//! The library sends nothing and waits for nothing. It builds the requests
//! (`management::Exchange`, the endpoints of `management::roles` and
//! `management::users`), judges what came back (`Exchange::outcome`), holds
//! the token (`cache::TokenCache`), signs (`management::Api::apply_auth`)
//! and decides when to fetch anew (`management::Api::refresh`). Whoever
//! uses it owns the transport, the timer and the lock.

pub mod authentication;
pub mod cache;
pub mod error;
pub mod management;
pub mod models;
pub mod refresh;
pub mod request;
pub mod url;
