use std::collections::HashSet;

use spoty::authorize::{AuthorizationUrlBuilder, ClientConfig};
use spoty::coordinator::{SessionCoordinator, ShutdownSupervisor, SHUTDOWN_GRACE_SECS};
use spoty::exchange::{
    classify_token_response, refresh_request_body, token_request_body, ExchangeError,
    TokenRequest, TokenResponse, TokenSet,
};
use spoty::session::{CallbackQuery, Directive, FailureReason, LoginSession, Outcome};
use spoty::store::{
    encode_credential, parse_credential, LoadStatus, PersistedCredential, TokenStore,
    REFRESH_BUFFER_SECS,
};

fn test_config() -> ClientConfig {
    ClientConfig {
        client_id: "abc123".to_string(),
        redirect_uri: "http://127.0.0.1:8888/callback".to_string(),
        scopes: vec!["user-read-private".to_string(), "user-read-email".to_string()],
    }
}

fn query(code: Option<&str>, state: Option<&str>, error: Option<&str>) -> CallbackQuery {
    CallbackQuery {
        code: code.map(|s| s.to_string()),
        state: state.map(|s| s.to_string()),
        error: error.map(|s| s.to_string()),
    }
}

fn token_set(access_token: &str, refresh_token: Option<&str>, issued_at: u64, expires_at: u64) -> TokenSet {
    TokenSet {
        access_token: access_token.to_string(),
        refresh_token: refresh_token.map(|s| s.to_string()),
        token_type: "Bearer".to_string(),
        scope: "user-read-private".to_string(),
        issued_at,
        expires_at,
    }
}

#[test]
fn nonces_stay_distinct_over_many_builds() {
    let mut builder = AuthorizationUrlBuilder::new();
    let config = test_config();
    let mut seen: HashSet<String> = HashSet::new();
    for _ in 0..10_000 {
        let (_url, nonce) = builder.build(&config);
        assert!(nonce.len() >= 32);
        assert!(seen.insert(nonce), "a nonce repeated");
    }
}

#[test]
fn nonce_prefix_is_hex_and_url_carries_it() {
    let mut builder = AuthorizationUrlBuilder::new();
    let (url, nonce) = builder.build(&test_config());
    assert!(nonce[..32].chars().all(|c| c.is_ascii_hexdigit()));
    assert!(nonce[32..].chars().all(|c| c.is_ascii_digit()));
    assert!(url.ends_with(&format!("&state={}", nonce)));
}

#[test]
fn authorization_url_is_fully_encoded() {
    let mut builder = AuthorizationUrlBuilder::new();
    let (url, nonce) = builder.build(&test_config());
    let expected = format!(
        "https://accounts.spotify.com/authorize?response_type=code&client_id=abc123&scope=user-read-private%20user-read-email&redirect_uri=http%3A%2F%2F127.0.0.1%3A8888%2Fcallback&state={}",
        nonce
    );
    assert_eq!(url, expected);
}

#[test]
fn error_callback_denies_without_exchange() {
    let mut session = LoginSession::new();
    session.begin_login("N1".to_string());
    let d = session.handle_callback(&query(Some("CODE"), Some("N1"), Some("access_denied")));
    match d {
        Directive::Publish { outcome: Outcome::Failure(FailureReason::UserDenied(m)) } => {
            assert_eq!(m, "access_denied");
        }
        other => panic!("expected a user-denied failure, got {:?}", other),
    }
}

#[test]
fn missing_code_fails_without_exchange() {
    let mut session = LoginSession::new();
    session.begin_login("N1".to_string());
    let d = session.handle_callback(&query(None, Some("N1"), None));
    match d {
        Directive::Publish { outcome: Outcome::Failure(FailureReason::MissingCode) } => {}
        other => panic!("expected a missing-code failure, got {:?}", other),
    }
}

#[test]
fn wrong_state_is_a_nonce_mismatch() {
    let mut session = LoginSession::new();
    session.begin_login("N1".to_string());
    let d = session.handle_callback(&query(Some("CODE"), Some("SOMETHING_ELSE"), None));
    match d {
        Directive::Publish { outcome: Outcome::Failure(FailureReason::NonceMismatch) } => {}
        other => panic!("expected a nonce mismatch, got {:?}", other),
    }
}

#[test]
fn callback_without_pending_login_is_rejected() {
    let mut session = LoginSession::new();
    let d = session.handle_callback(&query(Some("CODE"), Some("N1"), None));
    match d {
        Directive::Publish { outcome: Outcome::Failure(FailureReason::NonceMismatch) } => {}
        other => panic!("expected a nonce mismatch, got {:?}", other),
    }
}

#[test]
fn matching_callback_directs_exactly_one_exchange() {
    let mut session = LoginSession::new();
    session.begin_login("N1".to_string());
    let first = session.handle_callback(&query(Some("CODE"), Some("N1"), None));
    match first {
        Directive::Exchange { code } => assert_eq!(code, "CODE"),
        other => panic!("expected an exchange directive, got {:?}", other),
    }
    let second = session.handle_callback(&query(Some("CODE"), Some("N1"), None));
    assert!(
        !matches!(second, Directive::Exchange { .. }),
        "a second callback must not direct a second exchange"
    );
}

#[test]
fn superseded_login_nonce_is_rejected() {
    let mut session = LoginSession::new();
    session.begin_login("N1".to_string());
    session.begin_login("N2".to_string());
    let d = session.handle_callback(&query(Some("CODE"), Some("N1"), None));
    match d {
        Directive::Publish { outcome: Outcome::Failure(FailureReason::NonceMismatch) } => {}
        other => panic!("expected a nonce mismatch for the stale nonce, got {:?}", other),
    }
    let d2 = session.handle_callback(&query(Some("CODE"), Some("N2"), None));
    assert!(
        !matches!(d2, Directive::Exchange { .. }),
        "the attempt was already resolved by the stale callback"
    );
}

#[test]
fn completed_exchange_publishes_token() {
    let mut session = LoginSession::new();
    session.begin_login("N1".to_string());
    let d = session.handle_callback(&query(Some("CODE"), Some("N1"), None));
    assert!(matches!(d, Directive::Exchange { .. }));
    let o = session.complete_exchange(Ok(token_set("AT1", None, 1000, 4600)));
    match o {
        Outcome::Success(token) => assert_eq!(token, "AT1"),
        other => panic!("expected success, got {:?}", other),
    }
}

#[test]
fn failed_exchange_publishes_typed_failure() {
    let mut session = LoginSession::new();
    session.begin_login("N1".to_string());
    session.handle_callback(&query(Some("CODE"), Some("N1"), None));
    let o = session.complete_exchange(Err(ExchangeError::RateLimited));
    match o {
        Outcome::Failure(FailureReason::ExchangeFailed(ExchangeError::RateLimited)) => {}
        other => panic!("expected a rate-limited failure, got {:?}", other),
    }
}

#[test]
fn classify_maps_statuses_to_taxonomy() {
    let payload = TokenResponse {
        access_token: "AT1".to_string(),
        token_type: "Bearer".to_string(),
        expires_in: 3600,
        refresh_token: None,
        scope: "user-read-private".to_string(),
    };
    assert_eq!(
        classify_token_response(401, "", Some(payload.clone()), 0).unwrap_err(),
        ExchangeError::Unauthorized
    );
    assert_eq!(
        classify_token_response(403, "", None, 0).unwrap_err(),
        ExchangeError::Forbidden
    );
    assert_eq!(
        classify_token_response(429, "", None, 0).unwrap_err(),
        ExchangeError::RateLimited
    );
    assert_eq!(
        classify_token_response(500, "", None, 0).unwrap_err(),
        ExchangeError::ProviderUnavailable
    );
    assert_eq!(
        classify_token_response(599, "", None, 0).unwrap_err(),
        ExchangeError::ProviderUnavailable
    );
    assert_eq!(
        classify_token_response(404, "gone", None, 0).unwrap_err(),
        ExchangeError::Unexpected { status: 404, body: "gone".to_string() }
    );
    assert_eq!(
        classify_token_response(200, "{not json", None, 0).unwrap_err(),
        ExchangeError::MalformedResponse
    );

    let now = 1_700_000_000u64;
    let token = classify_token_response(200, "", Some(payload), now).unwrap();
    assert_eq!(token.access_token, "AT1");
    assert_eq!(token.token_type, "Bearer");
    assert_eq!(token.issued_at, now);
    assert_eq!(token.expires_at, now + 3600);
}

#[test]
fn classify_caps_expiry_at_the_representable_end() {
    let payload = TokenResponse {
        access_token: "AT1".to_string(),
        token_type: "Bearer".to_string(),
        expires_in: u64::MAX,
        refresh_token: None,
        scope: String::new(),
    };
    let token = classify_token_response(204, "", Some(payload), 10).unwrap();
    assert_eq!(token.expires_at, u64::MAX);
}

#[test]
fn token_request_body_is_form_encoded() {
    let req = TokenRequest {
        grant_type: "authorization_code".to_string(),
        code: "ab/cd".to_string(),
        redirect_uri: "http://localhost:8888/callback".to_string(),
        client_id: "id1".to_string(),
        client_secret: "s&1".to_string(),
    };
    assert_eq!(
        token_request_body(&req),
        "grant_type=authorization_code&code=ab%2Fcd&redirect_uri=http%3A%2F%2Flocalhost%3A8888%2Fcallback&client_id=id1&client_secret=s%261"
    );
}

#[test]
fn refresh_request_body_is_form_encoded() {
    assert_eq!(
        refresh_request_body("rt 1", "id1", "sec"),
        "grant_type=refresh_token&refresh_token=rt%201&client_id=id1&client_secret=sec"
    );
}

#[test]
fn save_then_load_inside_window_returns_token() {
    let t0 = 1_000_000u64;
    let mut store = TokenStore::new();
    store.save(&token_set("AT1", None, t0, t0 + 3600), t0);
    match store.load(t0 + 100) {
        LoadStatus::Fresh(token) => assert_eq!(token, "AT1"),
        other => panic!("expected a fresh token, got {:?}", other),
    }
}

#[test]
fn load_inside_refresh_buffer_without_refresh_token_degrades() {
    let t0 = 1_000_000u64;
    let mut store = TokenStore::new();
    store.save(&token_set("AT1", None, t0, t0 + 3600), t0);
    assert!(matches!(store.load(t0 + 3500), LoadStatus::NotAuthenticated));
    assert_eq!(REFRESH_BUFFER_SECS, 300);
}

#[test]
fn stale_credential_with_refresh_token_asks_for_refresh() {
    let t0 = 1_000_000u64;
    let mut store = TokenStore::new();
    store.save(&token_set("AT1", Some("RT1"), t0, t0 + 3600), t0);
    match store.load(t0 + 3500) {
        LoadStatus::NeedsRefresh(rt) => assert_eq!(rt, "RT1"),
        other => panic!("expected a refresh demand, got {:?}", other),
    }
    assert!(store.is_authenticated(t0 + 3500));
}

#[test]
fn clear_then_load_returns_none_regardless_of_prior_state() {
    let t0 = 2_000u64;
    let mut store = TokenStore::new();
    store.save(&token_set("AT1", Some("RT1"), t0, t0 + 3600), t0);
    store.clear();
    assert!(matches!(store.load(t0), LoadStatus::NotAuthenticated));
    assert!(!store.is_authenticated(t0));

    let mut empty = TokenStore::new();
    empty.clear();
    assert!(matches!(empty.load(0), LoadStatus::NotAuthenticated));
}

#[test]
fn credential_text_round_trips() {
    let cred = PersistedCredential {
        access_token: "AT1".to_string(),
        refresh_token: Some("RT1".to_string()),
        token_type: "Bearer".to_string(),
        scope: "user-read-private user-read-email".to_string(),
        expires_at: 1_700_003_600,
        saved_at: 1_700_000_000,
    };
    let text = encode_credential(&cred);
    assert_eq!(
        text,
        "access_token=AT1\nrefresh_token=RT1\ntoken_type=Bearer\nscope=user-read-private user-read-email\nexpires_at=1700003600\nsaved_at=1700000000\n"
    );
    let parsed = parse_credential(&text).expect("the encoded credential must parse");
    assert_eq!(parsed.access_token, "AT1");
    assert_eq!(parsed.refresh_token.as_deref(), Some("RT1"));
    assert_eq!(parsed.token_type, "Bearer");
    assert_eq!(parsed.scope, "user-read-private user-read-email");
    assert_eq!(parsed.expires_at, 1_700_003_600);
    assert_eq!(parsed.saved_at, 1_700_000_000);
}

#[test]
fn credential_without_refresh_token_round_trips() {
    let cred = PersistedCredential {
        access_token: "AT2".to_string(),
        refresh_token: None,
        token_type: "Bearer".to_string(),
        scope: String::new(),
        expires_at: 7,
        saved_at: 3,
    };
    let text = encode_credential(&cred);
    assert_eq!(text, "access_token=AT2\ntoken_type=Bearer\nscope=\nexpires_at=7\nsaved_at=3\n");
    let parsed = parse_credential(&text).expect("must parse");
    assert_eq!(parsed.refresh_token, None);
    assert_eq!(parsed.scope, "");
}

#[test]
fn malformed_credential_text_parses_to_none() {
    assert!(parse_credential("").is_none());
    assert!(parse_credential("access_token=AT1\n").is_none());
    assert!(parse_credential("not a credential at all").is_none());
    assert!(parse_credential(
        "access_token=AT1\ntoken_type=B\nscope=s\nexpires_at=soon\nsaved_at=3\n"
    )
    .is_none());
}

#[test]
fn later_duplicate_keys_win() {
    let parsed = parse_credential(
        "access_token=first\naccess_token=second\ntoken_type=B\nscope=s\nexpires_at=1\nsaved_at=2\n",
    )
    .expect("must parse");
    assert_eq!(parsed.access_token, "second");
}

#[test]
fn coordinator_delivers_exactly_once() {
    let mut coordinator = SessionCoordinator::new();
    assert!(coordinator.try_take().is_none());
    assert!(coordinator.publish(Outcome::Success("AT1".to_string())));
    assert!(
        !coordinator.publish(Outcome::Failure(FailureReason::Timeout)),
        "a second publish must be rejected"
    );
    match coordinator.try_take() {
        Some(Outcome::Success(token)) => assert_eq!(token, "AT1"),
        other => panic!("expected the published success, got {:?}", other),
    }
    assert!(coordinator.try_take().is_none(), "a second take must deliver nothing");
    assert!(
        !coordinator.publish(Outcome::Success("AT2".to_string())),
        "publishing after consumption must be rejected"
    );
}

#[test]
fn supervisor_schedules_stop_only_on_success() {
    let mut supervisor = ShutdownSupervisor::new();
    assert!(!supervisor.may_stop(u64::MAX));
    assert!(!supervisor.observe(&Outcome::Failure(FailureReason::MissingCode), 100));
    assert!(!supervisor.may_stop(u64::MAX));
    assert!(supervisor.observe(&Outcome::Success("AT1".to_string()), 100));
    assert_eq!(SHUTDOWN_GRACE_SECS, 5);
    assert!(!supervisor.may_stop(104));
    assert!(supervisor.may_stop(105));
}

#[test]
fn hydrate_restores_what_the_disk_held() {
    let mut store = TokenStore::new();
    store.hydrate(Some(PersistedCredential {
        access_token: "AT1".to_string(),
        refresh_token: None,
        token_type: "Bearer".to_string(),
        scope: String::new(),
        expires_at: 10_000,
        saved_at: 1,
    }));
    assert!(matches!(store.load(0), LoadStatus::Fresh(_)));
    store.hydrate(None);
    assert!(matches!(store.load(0), LoadStatus::NotAuthenticated));
}
