//! The authentication API: how a caller identifies itself, and the token
//! endpoint.

use crate::authentication::get_token::client_credentials_flow::RequestParameters;
use crate::request::{Method, Payload, Request};
use crate::url::{joined_url, BaseUrl};
use vstd::prelude::*;

pub mod get_token;

verus! {

/// How requests to the authentication API are authenticated.
pub enum AuthenicationMethod {
    OAuth2Token(String),
    ClientIDClientSecret(String, String),
    ClientID(String),
}

/// A client of the authentication API of one deployment.
pub struct Api {
    pub base_url: BaseUrl,
    pub authentication: AuthenicationMethod,
}

impl Api {
    /// A client for the deployment at `base_url`.
    pub fn init(base_url: BaseUrl, authentication: AuthenicationMethod) -> (api: Api)
        ensures
            api.base_url == base_url,
            api.authentication == authentication,
    {
        Api { base_url, authentication }
    }

    /// The request that asks the token endpoint for a client-credentials
    /// grant: a `POST` of `params` to `/oauth/token` on the base URL. There
    /// is none where the base URL takes no path.
    pub fn client_credentials_flow(
        &self,
        params: RequestParameters,
    ) -> (request: Option<Request<RequestParameters>>)
        ensures
            request is Some <==> joined_url(self.base_url@, "/oauth/token"@) is Some,
            request matches Some(r) ==> r.method == Method::Post,
            request matches Some(r) ==> Some(r.url@) == joined_url(self.base_url@, "/oauth/token"@),
            request matches Some(r) ==> r.headers@.len() == 0,
            request matches Some(r) ==> r.payload == Payload::Json(params),
    {
        match self.base_url.join("/oauth/token") {
            Some(url) => Some(Request::new(Method::Post, url, Payload::Json(params))),
            None => None,
        }
    }
}

} // verus!
