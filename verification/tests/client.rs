use auth0_client::authentication::get_token::client_credentials_flow::{
    RequestParameters, Response,
};
use auth0_client::authentication::{Api as AuthenticationApi, AuthenicationMethod};
use auth0_client::management::{Api, Exchange};
use auth0_client::request::{Method, Payload, Request};
use auth0_client::url::BaseUrl;

#[test]
fn it_works() {
    let base_url = BaseUrl::parse("https://YOUR_DOMAIN").unwrap();
    let authentication = AuthenicationMethod::OAuth2Token(String::from("some_awesome_token"));
    let management = AuthenticationApi::init(base_url, authentication);
    let get_token_client_credentials_flow_parameters = RequestParameters {
        grant_type: String::from("some_awesome_grant_type"),
        client_id: String::from("some_awesome_client_id"),
        client_secret: String::from("some_awesome_client_secret"),
        audience: String::from("some_awesome_audience_api"),
    };
    management.client_credentials_flow(get_token_client_credentials_flow_parameters);
}

#[test]
fn authentication_api_init() {
    let base_url = BaseUrl::parse("https://YOUR_DOMAIN").unwrap();
    let exchange = Exchange::new(
        base_url,
        String::from("some_awesome_id"),
        String::from("some_awesome_token"),
    )
    .unwrap();
    let first = Response {
        access_token: String::from("...."),
        scope: Some(String::from("update:roles")),
        expires_in: 86400,
        token_type: String::from("Bearer"),
    };
    let api = Api::init(exchange, Ok(first)).unwrap();
    let request: Request<()> = Request {
        method: Method::Get,
        url: String::from(api.base_url.as_str()),
        headers: Vec::new(),
        payload: Payload::Empty,
    };
    let test_url = String::from("https://your_domain/");
    assert_eq!(request.method, Method::Get);
    assert_eq!(request.url.as_str(), test_url);
    assert_eq!(request.headers.len(), 0);
    assert_eq!(matches!(request.payload, Payload::Empty), true);
}
