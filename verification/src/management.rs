//! The management API client: it is built on a first access token, keeps
//! the token fresh on a schedule and signs every request with the token
//! that it holds.

use crate::authentication;
use crate::authentication::get_token::client_credentials_flow::{
    Grant,
    RequestParameters,
    Response,
};
use crate::authentication::AuthenicationMethod;
use crate::cache::TokenCache;
use crate::error::ApiError;
use crate::models::AuthenticationResponse;
use crate::refresh::{
    action_on,
    after,
    built_on,
    step,
    ClientState,
    RefreshAction,
    RefreshEvent,
    RefreshState,
};
use crate::request::{
    authorizations,
    authorize,
    credential_line,
    header_lines,
    header_value_accepts,
    is_header_value,
    lemma_one_authorization,
    with_authorization,
    Header,
    HeaderLine,
    Method,
    Payload,
    Request,
};
use crate::url::{joined_url, BaseUrl};
use vstd::prelude::*;

pub mod roles;
pub mod users;

verus! {

/// The exchange of the client's credentials for an access token: where the
/// request goes and what it says. The same exchange is run when the client
/// is built and at every refresh.
pub struct Exchange {
    base_url: BaseUrl,
    endpoint: String,
    params: RequestParameters,
}

impl Exchange {
    /// The base URL of the deployment.
    pub closed spec fn base_url(self) -> Seq<char> {
        self.base_url@
    }

    /// The URL that the request goes to.
    pub closed spec fn endpoint(self) -> Seq<char> {
        self.endpoint@
    }

    /// What the request says.
    pub closed spec fn grant(self) -> Grant {
        self.params@
    }

    /// The exchange that sends `params` to `endpoint`, for the deployment
    /// at `base_url`.
    pub fn at(
        base_url: BaseUrl,
        endpoint: String,
        params: RequestParameters,
    ) -> (exchange: Exchange)
        ensures
            exchange.base_url() == base_url@,
            exchange.endpoint() == endpoint@,
            exchange.grant() == params@,
    {
        Exchange { base_url, endpoint, params }
    }

    /// The exchange for the deployment at `base_url` with the credentials
    /// `client_id` and `client_secret`: the request goes to `/oauth/token`
    /// on the base URL, and the audience of the token is `/api/v2/` on the
    /// base URL. There is none where the base URL takes no path.
    pub fn new(
        base_url: BaseUrl,
        client_id: String,
        client_secret: String,
    ) -> (exchange: Option<Exchange>)
        ensures
            exchange is Some <==> (joined_url(base_url@, "/oauth/token"@) is Some && joined_url(
                base_url@,
                "/api/v2/"@,
            ) is Some),
            exchange matches Some(e) ==> e.base_url() == base_url@,
            exchange matches Some(e) ==> Some(e.endpoint()) == joined_url(
                base_url@,
                "/oauth/token"@,
            ),
            exchange matches Some(e) ==> e.grant().grant_type == "client_credentials"@,
            exchange matches Some(e) ==> e.grant().client_id == client_id@,
            exchange matches Some(e) ==> e.grant().client_secret == client_secret@,
            exchange matches Some(e) ==> Some(e.grant().audience) == joined_url(
                base_url@,
                "/api/v2/"@,
            ),
    {
        let audience = match base_url.join("/api/v2/") {
            Some(audience) => audience,
            None => { return None; },
        };
        let auth = authentication::Api::init(
            base_url.clone(),
            AuthenicationMethod::ClientIDClientSecret(client_id.clone(), client_secret.clone()),
        );
        let params = RequestParameters::client_credentials(client_id, client_secret, audience);
        match auth.client_credentials_flow(params.clone()) {
            Some(request) => Some(Exchange::at(base_url, request.url, params)),
            None => None,
        }
    }

    /// The request to send: a `POST` of the grant to the endpoint.
    pub fn request(&self) -> (request: Request<RequestParameters>)
        ensures
            request.method == Method::Post,
            request.url@ == self.endpoint(),
            request.headers@.len() == 0,
            request.payload matches Payload::Json(params) && params@ == self.grant(),
    {
        Request::new(Method::Post, self.endpoint.clone(), Payload::Json(self.params.clone()))
    }

    /// How an exchange ended. `refused` is the failure that the transport
    /// makes of a status of failure, `body` the decoded body or the failure
    /// to decode it. An error payload is an authentication error whatever
    /// the status; without one, a status of failure or a body that is no
    /// token is a transport error; else the token is granted.
    pub fn outcome(
        refused: Option<reqwest::Error>,
        body: Result<AuthenticationResponse<Response>, reqwest::Error>,
    ) -> (granted: Result<Response, ApiError>)
        ensures
            granted == (match (body, refused) {
                (Ok(AuthenticationResponse::Error(error)), _) => Err::<Response, ApiError>(
                    ApiError::AuthenticationError(error),
                ),
                (_, Some(status)) => Err(ApiError::RequestError(status)),
                (Ok(AuthenticationResponse::Success(token)), None) => Ok(token),
                (Err(malformed), None) => Err(ApiError::RequestError(malformed)),
            }),
    {
        match body {
            Ok(AuthenticationResponse::Error(error)) => Err(ApiError::AuthenticationError(error)),
            Ok(AuthenticationResponse::Success(token)) => match refused {
                Some(status) => Err(ApiError::RequestError(status)),
                None => Ok(token),
            },
            Err(malformed) => match refused {
                Some(status) => Err(ApiError::RequestError(status)),
                None => Err(ApiError::RequestError(malformed)),
            },
        }
    }
}

/// A client of the management API of one deployment.
pub struct Api {
    pub base_url: BaseUrl,
    access_token: TokenCache,
    exchange: Exchange,
    refresh: RefreshState,
}

impl View for Api {
    type V = ClientState;

    closed spec fn view(&self) -> ClientState {
        ClientState { token: self.access_token@, state: self.refresh }
    }
}

impl Api {
    /// The base URL of the deployment, which every endpoint is resolved
    /// against.
    pub closed spec fn base(self) -> Seq<char> {
        self.base_url@
    }

    /// The exchange that the client was built on and repeats.
    pub closed spec fn exchange(self) -> Exchange {
        self.exchange
    }

    /// Builds the client on the outcome of its first exchange. Where the
    /// exchange failed there is no client, and so no schedule: the failure
    /// is handed on as it came. Where it gave a token, the client holds it
    /// and its schedule is started, with no exchange under way.
    pub fn init(
        exchange: Exchange,
        exchanged: Result<Response, ApiError>,
    ) -> (built: Result<Api, ApiError>)
        ensures
            exchanged matches Err(error) ==> built == Err::<Api, ApiError>(error),
            exchanged matches Ok(token) ==> (built matches Ok(api) && api@ == built_on(token@)),
            built matches Ok(api) ==> api.base() == exchange.base_url(),
            built matches Ok(api) ==> api.exchange() == exchange,
    {
        match exchanged {
            Ok(token) => Ok(
                Api {
                    base_url: exchange.base_url.clone(),
                    access_token: TokenCache::new(token),
                    exchange,
                    refresh: RefreshState::Starting,
                },
            ),
            Err(error) => Err(error),
        }
    }

    /// A copy of the token that requests are signed with.
    pub fn token(&self) -> (token: Response)
        ensures
            token@ == self@.token,
    {
        self.access_token.read()
    }

    /// Where the schedule stands. `Stopped` says that the token is no
    /// longer kept fresh.
    pub fn refresh_state(&self) -> (state: RefreshState)
        ensures
            state == self@.state,
    {
        self.refresh
    }

    /// The request of the exchange, to send when `refresh` says `Fetch`.
    pub fn token_request(&self) -> (request: Request<RequestParameters>)
        ensures
            request.method == Method::Post,
            request.url@ == self.exchange().endpoint(),
            request.headers@.len() == 0,
            request.payload matches Payload::Json(params) && params@ == self.exchange().grant(),
    {
        self.exchange.request()
    }

    /// Signs `headers` with the token that the client holds now: whatever
    /// `Authorization` headers there were are dropped, and there is exactly
    /// one, of the token's type, a space and the token. The client does not
    /// change. There are no signed headers where that value holds a
    /// character that no header can.
    pub fn sign(&self, headers: Vec<Header>) -> (signed: Option<Vec<Header>>)
        ensures
            signed is Some <==> is_header_value(self@.token.credential()),
            signed matches Some(s) ==> header_lines(s@) == with_authorization(
                header_lines(headers@),
                self@.token.credential(),
            ),
            signed matches Some(s) ==> authorizations(header_lines(s@)) == seq![
                credential_line(self@.token.credential()),
            ],
    {
        let value = self.access_token.read().credential();
        if header_value_accepts(value.as_str()) {
            proof {
                lemma_one_authorization(header_lines(headers@), value@);
            }
            Some(authorize(headers, value))
        } else {
            None
        }
    }

    /// Signs `request` with the token that the client holds now, as `sign`
    /// does its headers. Nothing else of the request changes.
    pub fn apply_auth<P>(&self, request: Request<P>) -> (signed: Option<Request<P>>)
        ensures
            signed is Some <==> is_header_value(self@.token.credential()),
            signed matches Some(r) ==> r.method == request.method,
            signed matches Some(r) ==> r.url == request.url,
            signed matches Some(r) ==> r.payload == request.payload,
            signed matches Some(r) ==> header_lines(r.headers@) == with_authorization(
                header_lines(request.headers@),
                self@.token.credential(),
            ),
            signed matches Some(r) ==> authorizations(header_lines(r.headers@)) == seq![
                credential_line(self@.token.credential()),
            ],
    {
        let Request { method, url, headers, payload } = request;
        match self.sign(headers) {
            Some(headers) => Some(Request { method, url, headers, payload }),
            None => None,
        }
    }

    /// Whether `request` is the call of `method` on the endpoint at `path`
    /// with `payload`, signed with the token that the client holds: the
    /// path resolved against the base URL, and the credential as the only
    /// header. There is no request where the base URL takes no path or the
    /// credential holds a character that no header can.
    pub open spec fn calls<P>(
        self,
        request: Option<Request<P>>,
        method: Method,
        path: Seq<char>,
        payload: Payload<P>,
    ) -> bool {
        &&& request is Some <==> {
            &&& joined_url(self.base(), path) is Some
            &&& is_header_value(self@.token.credential())
        }
        &&& request matches Some(r) ==> {
            &&& r.method == method
            &&& Some(r.url@) == joined_url(self.base(), path)
            &&& r.payload == payload
            &&& header_lines(r.headers@) == seq![credential_line(self@.token.credential())]
        }
    }

    /// The signed call of `method` on the endpoint at `path` with `payload`.
    /// `path` is resolved as any reference is: one that names another host
    /// leads there, with the credential.
    pub fn call<P>(
        &self,
        method: Method,
        path: &str,
        payload: Payload<P>,
    ) -> (request: Option<Request<P>>)
        ensures
            self.calls(request, method, path@, payload),
    {
        match self.base_url.join(path) {
            Some(url) => {
                let bare = Request::new(method, url, payload);
                proof {
                    reveal(Seq::filter);
                    assert(header_lines(bare.headers@) == Seq::<HeaderLine>::empty());
                }
                self.apply_auth(bare)
            },
            None => None,
        }
    }

    /// Takes one event of the schedule and says what to do next. A token
    /// that an exchange under way brought replaces the cached one; in every
    /// other case the cached token stays.
    pub fn refresh(&mut self, event: RefreshEvent) -> (action: RefreshAction)
        ensures
            final(self)@ == after(old(self)@, event),
            action == action_on(old(self)@.state, event),
            final(self).base() == old(self).base(),
            final(self).exchange() == old(self).exchange(),
    {
        let (next, action) = step(self.refresh, &event);
        match event {
            RefreshEvent::Fetched(token) => {
                if self.refresh == RefreshState::FetchInFlight {
                    self.access_token.replace(token);
                }
            },
            _ => {},
        }
        self.refresh = next;
        action
    }
}

} // verus!
