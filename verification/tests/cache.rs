use auth0_client::authentication::get_token::client_credentials_flow::Response;
use auth0_client::cache::TokenCache;

fn token(text: &str, expires_in: u64) -> Response {
    Response {
        access_token: String::from(text),
        scope: Some(format!("scope-of-{}", text)),
        expires_in,
        token_type: String::from("Bearer"),
    }
}

fn same(a: &Response, b: &Response) -> bool {
    a.access_token == b.access_token
        && a.scope == b.scope
        && a.expires_in == b.expires_in
        && a.token_type == b.token_type
}

#[test]
fn cache_holds_what_it_was_made_with() {
    let cache = TokenCache::new(token("T1", 10));
    assert!(same(&cache.read(), &token("T1", 10)));
    assert!(same(&cache.read(), &token("T1", 10)));
}

#[test]
fn reads_see_the_last_replacement_whole() {
    let mut cache = TokenCache::new(token("T1", 10));
    let before = cache.read();
    cache.replace(token("T2", 20));
    let after = cache.read();
    assert!(same(&before, &token("T1", 10)));
    assert!(same(&after, &token("T2", 20)));
    cache.replace(token("T3", 30));
    cache.replace(token("T4", 40));
    assert!(same(&cache.read(), &token("T4", 40)));
    assert!(same(&cache.read(), &token("T4", 40)));
}

#[test]
fn a_copy_outlives_the_replacement() {
    let mut cache = TokenCache::new(token("T1", 10));
    let copy = cache.read();
    cache.replace(token("T2", 20));
    assert!(same(&copy, &token("T1", 10)));
}
