//! The token endpoint, one module for each grant.

pub mod client_credentials_flow;
