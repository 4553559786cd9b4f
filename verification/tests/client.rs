use little_stomper::client::{Client, DefaultClient, DEFAULT_SERVER};

#[derive(Clone, Default)]
struct TestClient {
    login: Option<String>,
    passcode: Option<String>,
}

impl Client for TestClient {}

#[test]
fn default_server_is_little_stomper_version() {
    let client = TestClient::default();

    assert_eq!(DEFAULT_SERVER, client.server().unwrap());
    assert!(client.login.is_none() && client.passcode.is_none());
}

#[test]
fn default_session_is_none() {
    let client = TestClient::default();

    assert_eq!(None, client.session());
}

#[test]
fn default_client_returns_defaults() {
    let client = DefaultClient;

    assert_eq!(DEFAULT_SERVER, client.server().unwrap());
    assert_eq!(None, client.session());
}
