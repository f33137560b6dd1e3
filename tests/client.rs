use copypasta::client::{
    check_resp, ClientConfig, CreateStreamResponse, HeyError, LoginResponse, PastaClient,
    UserInfo,
};

fn session(config: Option<ClientConfig>) -> PastaClient {
    let mut client = PastaClient::new(reqwest::Client::new(), ".pastaconfig".to_string());
    if let Some(config) = config {
        client.set_config(config);
    }
    client
}

fn config(token: &str, host: &str) -> ClientConfig {
    ClientConfig { token: token.to_string(), host: host.to_string() }
}

#[test]
fn refusal_surfaces_login_challenge() {
    let r = check_resp(403, "{\"login_url\":\"https://x/auth\"}");
    match r {
        Err(HeyError::NotLoggedIn(url)) => assert_eq!(url, "https://x/auth"),
        other => panic!("expected a login challenge, got {:?}", other),
    }
}

#[test]
fn success_status_is_accepted() {
    assert!(check_resp(200, "").is_ok());
}

#[test]
fn other_status_is_server_error() {
    assert!(matches!(check_resp(500, "{}"), Err(HeyError::ServerError(500))));
    assert!(matches!(check_resp(404, "{\"login_url\":\"https://x/auth\"}"), Err(HeyError::ServerError(404))));
}

#[test]
fn refusal_without_login_url_is_malformed() {
    assert!(matches!(check_resp(403, "{}"), Err(HeyError::MalformedResponse)));
    assert!(matches!(check_resp(403, "not json"), Err(HeyError::MalformedResponse)));
    assert!(matches!(check_resp(403, "{\"login_url\":\"\"}"), Err(HeyError::MalformedResponse)));
}

#[test]
fn login_response_reads_url() {
    let r = LoginResponse::from_body("{\"login_url\":\"https://x/auth\",\"other\":1}").unwrap();
    assert_eq!(r.login_url, "https://x/auth");
    assert!(LoginResponse::from_body("{\"login_url\":7}").is_none());
}

#[test]
fn valid_token_returns_identity() {
    let user = UserInfo::from_response(200, "{\"username\":\"alice\"}").unwrap();
    assert_eq!(user.username, "alice");
}

#[test]
fn invalid_token_yields_challenge_with_url() {
    match UserInfo::from_response(403, "{\"login_url\":\"https://x/auth\"}") {
        Err(HeyError::NotLoggedIn(url)) => assert!(!url.is_empty()),
        other => panic!("expected a login challenge, got {:?}", other),
    }
}

#[test]
fn identity_without_username_is_malformed() {
    assert!(matches!(UserInfo::from_response(200, "{}"), Err(HeyError::MalformedResponse)));
}

#[test]
fn create_stream_reads_name() {
    let created = CreateStreamResponse::from_response(200, "{\"name\":\"k3j4\"}").unwrap();
    assert_eq!(created.name, "k3j4");
    assert!(matches!(CreateStreamResponse::from_response(502, ""), Err(HeyError::ServerError(502))));
}

#[test]
fn urls_use_default_host_without_credentials() {
    let client = session(None);
    assert_eq!(client.get_url("api"), "http://localhost:4000/api");
    assert_eq!(client.get_socket_url().unwrap(), "ws://localhost:4000/socket");
    assert!(client.get_token().is_none());
}

#[test]
fn urls_use_configured_host() {
    let client = session(Some(config("tok", "paste.example:8080")));
    assert_eq!(client.get_url("api/stream"), "http://paste.example:8080/api/stream");
    assert_eq!(client.get_socket_url().unwrap(), "ws://paste.example:8080/socket");
    assert_eq!(client.get_token(), Some("tok".to_string()));
}

#[test]
fn installed_token_is_trimmed_and_keeps_host() {
    let mut client = session(Some(config("old", "paste.example")));
    client.install_token("  fresh-token\n");
    let installed = client.config.as_ref().unwrap();
    assert_eq!(installed.token, "fresh-token");
    assert_eq!(installed.host, "paste.example");
    assert_eq!(client.config_path, ".pastaconfig");
}

#[test]
fn installed_token_without_credentials_uses_default_host() {
    let mut client = session(None);
    client.install_token("abc\r\n");
    let installed = client.config.as_ref().unwrap();
    assert_eq!(installed.token, "abc");
    assert_eq!(installed.host, "localhost:4000");
}

#[test]
fn transport_failure_becomes_request_error() {
    let err = reqwest::Client::new().get("not a url").send().unwrap_err();
    assert!(matches!(HeyError::from(err), HeyError::RequestError(_)));
}

#[test]
fn installed_token_drops_unicode_white_space() {
    let mut client = session(None);
    client.install_token("\u{3000}\u{a0}tok en\u{2028}\t");
    assert_eq!(client.config.as_ref().unwrap().token, "tok en");
}
