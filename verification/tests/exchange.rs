use auth0_client::authentication::get_token::client_credentials_flow::{
    RequestParameters, Response,
};
use auth0_client::authentication::{Api, AuthenicationMethod};
use auth0_client::error::{ApiError, AuthenticationError, AuthenticationErrorResponse};
use auth0_client::management::Exchange;
use auth0_client::models::AuthenticationResponse;
use auth0_client::request::{Method, Payload};
use auth0_client::url::BaseUrl;

fn token(text: &str) -> Response {
    Response {
        access_token: String::from(text),
        scope: Some(String::from("update:roles")),
        expires_in: 86400,
        token_type: String::from("Bearer"),
    }
}

fn bad_address() -> reqwest::Error {
    reqwest::Proxy::http("http://[::bad").unwrap_err()
}

fn bad_port() -> reqwest::Error {
    reqwest::Proxy::http("http://example.com:99999999").unwrap_err()
}

#[test]
fn base_url_keeps_the_serialization() {
    let url = BaseUrl::parse("https://YOUR_DOMAIN").unwrap();
    assert_eq!(url.as_str(), "https://your_domain/");
    let same = url.clone();
    assert_eq!(same.as_str(), "https://your_domain/");
}

#[test]
fn base_url_rejects_what_is_no_absolute_url() {
    assert!(BaseUrl::parse("").is_none());
    assert!(BaseUrl::parse("/api/v2/").is_none());
    assert!(BaseUrl::parse("example.com").is_none());
    assert!(BaseUrl::parse("https://").is_none());
}

#[test]
fn join_resolves_against_the_base() {
    let url = BaseUrl::parse("https://example.com/tenant/").unwrap();
    assert_eq!(
        url.join("/api/v2/roles").unwrap(),
        "https://example.com/api/v2/roles"
    );
    assert_eq!(
        url.join("roles").unwrap(),
        "https://example.com/tenant/roles"
    );
    assert_eq!(
        url.join("https://other.example/x").unwrap(),
        "https://other.example/x"
    );
}

#[test]
fn join_fails_on_a_base_without_paths() {
    let url = BaseUrl::parse("mailto:admin@example.com").unwrap();
    assert!(url.join("/api/v2/").is_none());
}

#[test]
fn exchange_posts_to_the_token_endpoint() {
    let base = BaseUrl::parse("https://example.com").unwrap();
    let exchange = Exchange::new(base, String::from("abc"), String::from("xyz")).unwrap();
    let request = exchange.request();
    assert_eq!(request.method, Method::Post);
    assert_eq!(request.url, "https://example.com/oauth/token");
    assert!(request.headers.is_empty());
    match request.payload {
        Payload::Json(params) => {
            assert_eq!(params.grant_type, "client_credentials");
            assert_eq!(params.client_id, "abc");
            assert_eq!(params.client_secret, "xyz");
            assert_eq!(params.audience, "https://example.com/api/v2/");
        }
        _ => panic!("the grant is sent as JSON"),
    }
}

#[test]
fn exchange_is_the_same_every_time() {
    let base = BaseUrl::parse("https://example.com/some/path?x=1").unwrap();
    let exchange = Exchange::new(base, String::from("id"), String::from("secret")).unwrap();
    let first = exchange.request();
    let second = exchange.request();
    assert_eq!(first.url, "https://example.com/oauth/token");
    assert_eq!(second.url, first.url);
    match (first.payload, second.payload) {
        (Payload::Json(a), Payload::Json(b)) => {
            assert_eq!(a.audience, "https://example.com/api/v2/");
            assert_eq!(a.audience, b.audience);
            assert_eq!(a.client_id, b.client_id);
            assert_eq!(a.client_secret, b.client_secret);
            assert_eq!(a.grant_type, b.grant_type);
        }
        _ => panic!("the grant is sent as JSON"),
    }
}

#[test]
fn exchange_at_a_given_endpoint_sends_the_given_grant() {
    let base = BaseUrl::parse("https://example.com").unwrap();
    let params = RequestParameters::client_credentials(
        String::from("abc"),
        String::from("xyz"),
        String::from("https://api.example.com/"),
    );
    assert_eq!(params.grant_type, "client_credentials");
    assert_eq!(params.client_id, "abc");
    assert_eq!(params.client_secret, "xyz");
    assert_eq!(params.audience, "https://api.example.com/");
    let exchange = Exchange::at(base, String::from("https://login.example.com/token"), params);
    let request = exchange.request();
    assert_eq!(request.method, Method::Post);
    assert_eq!(request.url, "https://login.example.com/token");
    assert!(request.headers.is_empty());
    assert!(matches!(request.payload, Payload::Json(p) if p.audience == "https://api.example.com/"));
}

#[test]
fn no_exchange_on_a_base_without_paths() {
    let base = BaseUrl::parse("mailto:admin@example.com").unwrap();
    assert!(Exchange::new(base, String::from("abc"), String::from("xyz")).is_none());
}

#[test]
fn client_credentials_flow_carries_the_parameters() {
    let api = Api::init(
        BaseUrl::parse("https://example.com").unwrap(),
        AuthenicationMethod::ClientID(String::from("abc")),
    );
    let params = RequestParameters {
        grant_type: String::from("client_credentials"),
        client_id: String::from("abc"),
        client_secret: String::from("xyz"),
        audience: String::from("https://example.com/api/v2/"),
    };
    let copy = params.clone();
    assert_eq!(copy.audience, params.audience);
    let request = api.client_credentials_flow(params).unwrap();
    assert_eq!(request.method, Method::Post);
    assert_eq!(request.url, "https://example.com/oauth/token");
    assert!(matches!(request.payload, Payload::Json(p) if p.client_secret == "xyz"));
}

#[test]
fn outcome_grants_a_token_on_success() {
    let granted = Exchange::outcome(None, Ok(AuthenticationResponse::Success(token("T1"))));
    let granted = granted.unwrap();
    assert_eq!(granted.access_token, "T1");
    assert_eq!(granted.token_type, "Bearer");
    assert_eq!(granted.expires_in, 86400);
    assert_eq!(granted.scope.as_deref(), Some("update:roles"));
}

#[test]
fn outcome_reports_an_error_payload_whatever_the_status() {
    let payload = AuthenticationErrorResponse {
        error: String::from("access_denied"),
        error_description: String::from("Unauthorized"),
    };
    let refused = Exchange::outcome(
        Some(bad_address()),
        Ok(AuthenticationResponse::Error(AuthenticationError::AccessDenied(payload.clone()))),
    );
    match refused {
        Err(ApiError::AuthenticationError(AuthenticationError::AccessDenied(p))) => {
            assert_eq!(p.error, "access_denied");
            assert_eq!(p.error_description, "Unauthorized");
        }
        _ => panic!("an error payload is an authentication error"),
    }
    let refused = Exchange::outcome(
        None,
        Ok(AuthenticationResponse::Error(AuthenticationError::InvalidClient(payload))),
    );
    assert!(matches!(
        refused,
        Err(ApiError::AuthenticationError(AuthenticationError::InvalidClient(_)))
    ));
}

#[test]
fn outcome_fails_on_a_status_of_failure() {
    let failed = Exchange::outcome(
        Some(bad_address()),
        Ok(AuthenticationResponse::Success(token("T1"))),
    );
    match failed {
        Err(ApiError::RequestError(e)) => assert!(format!("{:?}", e).contains("InvalidIpv6Address")),
        _ => panic!("a status of failure is a transport error"),
    }
    let failed = Exchange::outcome(Some(bad_address()), Err(bad_port()));
    match failed {
        Err(ApiError::RequestError(e)) => assert!(format!("{:?}", e).contains("InvalidIpv6Address")),
        _ => panic!("a status of failure is a transport error"),
    }
}

#[test]
fn outcome_fails_on_a_malformed_body() {
    let failed = Exchange::outcome(None, Err(bad_port()));
    match failed {
        Err(ApiError::RequestError(e)) => assert!(format!("{:?}", e).contains("InvalidPort")),
        _ => panic!("a malformed body is a transport error"),
    }
}

#[test]
fn errors_convert_into_the_common_error() {
    let payload = AuthenticationErrorResponse {
        error: String::from("too_many_requests"),
        error_description: String::from("slow down"),
    };
    let error = ApiError::from(AuthenticationError::TooManyRequests(payload));
    assert!(matches!(
        error,
        ApiError::AuthenticationError(AuthenticationError::TooManyRequests(_))
    ));
    let error = ApiError::from(bad_port());
    assert!(matches!(error, ApiError::RequestError(_)));
}
