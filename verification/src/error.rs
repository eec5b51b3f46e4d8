//! Errors of the token endpoint, of the management API and of the transport.

use std::collections::HashMap;
use vstd::prelude::*;

verus! {

/// `reqwest::Error`, a failure of the transport. The library carries it
/// through as the HTTP client made it and reads nothing of it.
#[verifier::external_type_specification]
#[verifier::external_body]
pub struct ExTransportError(reqwest::Error);

/// The error payload of the token endpoint.
#[derive(Debug, Clone)]
pub struct AuthenticationErrorResponse {
    pub error: String,
    pub error_description: String,
}

/// The error payload of a management API call.
#[derive(Debug, Clone)]
pub struct ManagementErrorResponse {
    pub status_code: u16,
    pub error: String,
    pub message: String,
    pub attributes: Option<HashMap<String, String>>,
}

/// What the token endpoint may refuse a request with.
#[derive(Debug, Clone)]
pub enum AuthenticationError {
    InvalidRequest(AuthenticationErrorResponse),
    InvalidScope(AuthenticationErrorResponse),
    InvalidClient(AuthenticationErrorResponse),
    RequestValidation(AuthenticationErrorResponse),
    UnauthorizedClient(AuthenticationErrorResponse),
    AccessDenied(AuthenticationErrorResponse),
    InvalidGrant(AuthenticationErrorResponse),
    EndpointDisabled(AuthenticationErrorResponse),
    MethodNotAllowed(AuthenticationErrorResponse),
    TooManyRequests(AuthenticationErrorResponse),
    UnsupportedResponseType(AuthenticationErrorResponse),
    UnsupportedGrantType(AuthenticationErrorResponse),
    TemporarilyUnavailable(AuthenticationErrorResponse),
}

/// Every failure that a caller of the client can see.
#[derive(Debug)]
pub enum ApiError {
    RequestError(reqwest::Error),
    AuthenticationError(AuthenticationError),
    ManagementError(ManagementErrorResponse),
}

impl From<reqwest::Error> for ApiError {
    fn from(error: reqwest::Error) -> (failure: ApiError) {
        ApiError::RequestError(error)
    }
}

impl vstd::std_specs::convert::FromSpecImpl<reqwest::Error> for ApiError {
    open spec fn obeys_from_spec() -> bool {
        true
    }

    open spec fn from_spec(error: reqwest::Error) -> ApiError {
        ApiError::RequestError(error)
    }
}

impl From<AuthenticationError> for ApiError {
    fn from(error: AuthenticationError) -> (failure: ApiError) {
        ApiError::AuthenticationError(error)
    }
}

impl vstd::std_specs::convert::FromSpecImpl<AuthenticationError> for ApiError {
    open spec fn obeys_from_spec() -> bool {
        true
    }

    open spec fn from_spec(error: AuthenticationError) -> ApiError {
        ApiError::AuthenticationError(error)
    }
}

} // verus!
