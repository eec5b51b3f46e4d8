//! Shapes shared by the endpoints.

use crate::error::AuthenticationError;
use vstd::prelude::*;

verus! {

/// The body of an answer of the token endpoint: the expected shape or an
/// error payload.
#[derive(Debug, Clone)]
pub enum AuthenticationResponse<T> {
    Success(T),
    Error(AuthenticationError),
}

/// A role of the management API.
#[derive(Debug, Clone)]
pub struct Role {
    pub id: String,
    pub name: String,
    pub description: String,
}

} // verus!
