use std::sync::Arc;

use auth0_client::authentication::get_token::client_credentials_flow::Response;
use auth0_client::management::{Api, Exchange};
use auth0_client::refresh::{RefreshAction, RefreshEvent};
use auth0_client::request::{Method, Payload, Request};
use auth0_client::url::BaseUrl;
use tokio::sync::Mutex;

const REFRESHES: u64 = 40;
const READS: usize = 500;

fn token(n: u64) -> Response {
    Response {
        access_token: format!("T{}", n),
        scope: Some(format!("scope-{}", n)),
        expires_in: n,
        token_type: format!("Bearer{}", n),
    }
}

fn shared() -> Arc<Mutex<Api>> {
    let base = BaseUrl::parse("https://example.com").unwrap();
    let exchange = Exchange::new(base, String::from("abc"), String::from("xyz")).unwrap();
    let mut api = Api::init(exchange, Ok(token(0))).unwrap();
    assert_eq!(api.refresh(RefreshEvent::Tick), RefreshAction::Wait);
    Arc::new(Mutex::new(api))
}

/// Checks that what was read is one token, whole, and signs with it: the
/// number that the token was made of is handed back.
fn observe(api: &Api) -> u64 {
    let read = api.token();
    let n = read.expires_in;
    assert_eq!(read.access_token, format!("T{}", n));
    assert_eq!(read.scope, Some(format!("scope-{}", n)));
    assert_eq!(read.token_type, format!("Bearer{}", n));
    let bare: Request<()> =
        Request::new(Method::Get, String::from("https://example.com/"), Payload::Empty);
    let signed = api.apply_auth(bare).unwrap();
    assert_eq!(signed.headers.len(), 1);
    assert_eq!(signed.headers[0].value, format!("Bearer{} T{}", n, n));
    n
}

#[test]
fn tasks_and_threads_read_whole_tokens_while_one_task_replaces() {
    let runtime = tokio::runtime::Builder::new_multi_thread()
        .worker_threads(4)
        .build()
        .unwrap();
    runtime.block_on(async {
        let api = shared();
        let mut readers = Vec::new();
        for _ in 0..4 {
            let api = api.clone();
            readers.push(tokio::spawn(async move {
                let mut newest = 0;
                for _ in 0..READS {
                    let seen = observe(&*api.lock().await);
                    assert!(seen >= newest);
                    newest = seen;
                    tokio::task::yield_now().await;
                }
                newest
            }));
        }
        for _ in 0..4 {
            let api = api.clone();
            readers.push(tokio::task::spawn_blocking(move || {
                let mut newest = 0;
                for _ in 0..READS {
                    let seen = observe(&*api.blocking_lock());
                    assert!(seen >= newest);
                    newest = seen;
                }
                newest
            }));
        }
        let writer = {
            let api = api.clone();
            tokio::spawn(async move {
                for n in 1..=REFRESHES {
                    assert_eq!(api.lock().await.refresh(RefreshEvent::Tick), RefreshAction::Fetch);
                    tokio::task::yield_now().await;
                    let fetched = RefreshEvent::Fetched(token(n));
                    assert_eq!(api.lock().await.refresh(fetched), RefreshAction::Wait);
                    tokio::task::yield_now().await;
                }
            })
        };
        writer.await.unwrap();
        for reader in readers {
            assert!(reader.await.unwrap() <= REFRESHES);
        }
        assert_eq!(observe(&*api.lock().await), REFRESHES);
    });
}
