use taura_auth::apply_refresh;
use taura_auth::build_session;
use taura_auth::code_exchange_params;
use taura_auth::ensure_fresh_step;
use taura_auth::refresh_request;
use taura_auth::evaluate_stored_session;
use taura_auth::token_outcome;
use taura_auth::AuthError;
use taura_auth::FreshnessDecision;
use taura_auth::GoogleAuthConfig;
use taura_auth::PkceAttempt;
use taura_auth::ProfileResponse;
use taura_auth::ProtocolViolation;
use taura_auth::Session;
use taura_auth::SessionStore;
use taura_auth::TokenResponse;

fn sample_session(expires_at: Option<i64>, refresh_token: Option<&str>) -> Session {
    Session {
        access_token: "at-1".to_string(),
        refresh_token: refresh_token.map(|s| s.to_string()),
        expires_at,
        id_token: Some("id-1".to_string()),
        email: Some("u@example.com".to_string()),
        name: Some("U".to_string()),
        picture: None,
        sub: Some("sub-1".to_string()),
        client_id: Some("abc".to_string()),
        client_secret: None,
    }
}

#[test]
fn building_a_session_applies_the_expiry_skew() {
    let tok = TokenResponse {
        access_token: "fresh".to_string(),
        expires_in: Some(3600),
        refresh_token: Some("rt".to_string()),
        id_token: Some("idt".to_string()),
    };
    let profile = ProfileResponse {
        sub: Some("s".to_string()),
        email: Some("e@x".to_string()),
        name: None,
        picture: None,
    };
    let now: i64 = 1_000_000;
    let s = build_session(tok, profile, "abc".to_string(), None, now);
    assert_eq!(s.access_token, "fresh");
    assert_eq!(s.expires_at, Some(1_000_000 + 3600 - 30));
    assert_eq!(s.refresh_token, Some("rt".to_string()));
    assert_eq!(s.id_token, Some("idt".to_string()));
    assert_eq!(s.client_id, Some("abc".to_string()));
    assert_eq!(s.sub, Some("s".to_string()));
    assert_eq!(s.email, Some("e@x".to_string()));
}

#[test]
fn refresh_without_new_refresh_token_preserves_the_old_one() {
    let existing = sample_session(Some(100), Some("rt-old"));
    let tok = TokenResponse {
        access_token: "at-2".to_string(),
        expires_in: Some(500),
        refresh_token: None,
        id_token: None,
    };
    let now: i64 = 1_000;
    let s = apply_refresh(existing, tok, now);
    assert_eq!(s.refresh_token, Some("rt-old".to_string()));
    assert_eq!(s.access_token, "at-2");
    assert_eq!(s.expires_at, Some(1_000 + 500 - 30));
    assert_eq!(s.id_token, Some("id-1".to_string()));
    assert_eq!(s.client_id, Some("abc".to_string()));
}

#[test]
fn refresh_with_new_tokens_replaces_them() {
    let existing = sample_session(Some(100), Some("rt-old"));
    let tok = TokenResponse {
        access_token: "at-3".to_string(),
        expires_in: None,
        refresh_token: Some("rt-new".to_string()),
        id_token: Some("id-new".to_string()),
    };
    let s = apply_refresh(existing, tok, 5_000);
    assert_eq!(s.refresh_token, Some("rt-new".to_string()));
    assert_eq!(s.id_token, Some("id-new".to_string()));
    assert_eq!(s.expires_at, None);
}

#[test]
fn fresh_session_is_returned_unchanged() {
    let now: i64 = 1_000_000;
    let s = sample_session(Some(now + 500), Some("rt"));
    match ensure_fresh_step(Some(s.clone()), now) {
        FreshnessDecision::Fresh(out) => {
            assert_eq!(out.access_token, s.access_token);
            assert_eq!(out.expires_at, s.expires_at);
            assert_eq!(out.refresh_token, s.refresh_token);
        }
        _ => panic!("expected the session to be fresh"),
    }
}

#[test]
fn session_without_expiry_counts_as_fresh() {
    let now: i64 = 1_000_000;
    match ensure_fresh_step(Some(sample_session(None, Some("rt"))), now) {
        FreshnessDecision::Fresh(out) => assert_eq!(out.expires_at, None),
        _ => panic!("expected the session to be fresh"),
    }
}

#[test]
fn stale_session_gets_exactly_one_refresh_plan() {
    let now: i64 = 1_000_000;
    let s = sample_session(Some(now + 10), Some("rt"));
    match ensure_fresh_step(Some(s), now) {
        FreshnessDecision::Refresh(plan) => {
            let expected = vec![
                ("client_id".to_string(), "abc".to_string()),
                ("grant_type".to_string(), "refresh_token".to_string()),
                ("refresh_token".to_string(), "rt".to_string()),
            ];
            assert_eq!(plan.params, expected);
            assert_eq!(plan.session.access_token, "at-1");
        }
        _ => panic!("expected a refresh plan"),
    }
}

#[test]
fn stale_session_without_refresh_token_is_expired() {
    let now: i64 = 1_000_000;
    let s = sample_session(Some(now + 10), None);
    assert!(matches!(
        ensure_fresh_step(Some(s), now),
        FreshnessDecision::Expired
    ));
}

#[test]
fn no_stored_session_demands_a_sign_in() {
    assert!(matches!(
        ensure_fresh_step(None, 0),
        FreshnessDecision::NoSession
    ));
}

#[test]
fn stale_refreshed_store_holds_the_new_expiry() {
    let now: i64 = 1_000_000;
    let mut store = SessionStore::new();
    store.persist(sample_session(Some(now + 10), Some("rt")));
    let plan = match ensure_fresh_step(store.get_session(), now) {
        FreshnessDecision::Refresh(plan) => plan,
        _ => panic!("expected a refresh plan"),
    };
    let tok = TokenResponse {
        access_token: "at-new".to_string(),
        expires_in: Some(3600),
        refresh_token: None,
        id_token: None,
    };
    let refreshed = apply_refresh(plan.session, tok, now);
    store.persist(refreshed);
    let held = store.get_session().unwrap();
    assert_eq!(held.expires_at, Some(now + 3600 - 30));
    assert_eq!(held.access_token, "at-new");
    assert_eq!(held.refresh_token, Some("rt".to_string()));
}

#[test]
fn expired_session_leaves_the_store_untouched() {
    let now: i64 = 1_000_000;
    let mut store = SessionStore::new();
    store.persist(sample_session(Some(now + 10), None));
    match ensure_fresh_step(store.get_session(), now) {
        FreshnessDecision::Expired => {}
        _ => panic!("expected the session to be expired"),
    }
    let held = store.get_session().unwrap();
    assert_eq!(held.access_token, "at-1");
    assert_eq!(held.expires_at, Some(now + 10));
}

#[test]
fn sign_out_then_get_session_finds_nothing_and_is_idempotent() {
    let mut store = SessionStore::new();
    store.persist(sample_session(None, None));
    assert!(store.get_session().is_some());
    store.sign_out();
    assert!(store.get_session().is_none());
    store.sign_out();
    assert!(store.get_session().is_none());
}

#[test]
fn loaded_record_without_bearer_token_counts_as_no_session() {
    let mut s = sample_session(None, None);
    s.access_token = String::new();
    let store = SessionStore::from_loaded(Some(s));
    assert!(store.get_session().is_none());
    let store2 = SessionStore::from_loaded(None);
    assert!(store2.get_session().is_none());
}

#[test]
fn provider_failure_keeps_status_and_body() {
    let r = token_outcome(400, None, "invalid_grant".to_string());
    match r {
        Err(AuthError::Provider { status, body }) => {
            assert_eq!(status, 400);
            assert_eq!(body, "invalid_grant");
        }
        _ => panic!("expected a provider error"),
    }
}

#[test]
fn unparsable_success_body_is_a_protocol_error() {
    let r = token_outcome(200, None, "not json".to_string());
    assert!(matches!(
        r,
        Err(AuthError::Protocol(ProtocolViolation::MalformedTokenResponse))
    ));
    let empty = TokenResponse {
        access_token: String::new(),
        expires_in: None,
        refresh_token: None,
        id_token: None,
    };
    let r2 = token_outcome(200, Some(empty), String::new());
    assert!(matches!(
        r2,
        Err(AuthError::Protocol(ProtocolViolation::MalformedTokenResponse))
    ));
}

#[test]
fn successful_token_response_passes_through() {
    let tok = TokenResponse {
        access_token: "at".to_string(),
        expires_in: Some(10),
        refresh_token: None,
        id_token: None,
    };
    let r = token_outcome(200, Some(tok), String::new()).unwrap();
    assert_eq!(r.access_token, "at");
    assert_eq!(r.expires_in, Some(10));
}

#[test]
fn code_exchange_params_carry_the_secret_only_when_configured() {
    let attempt = PkceAttempt {
        code_verifier: "v".repeat(43),
        code_challenge: "c".to_string(),
        state: "st".to_string(),
        redirect_uri: "http://127.0.0.1:1".to_string(),
        client_id: "abc".to_string(),
        client_secret: None,
    };
    let params = code_exchange_params(&attempt, "code-1");
    let expected = vec![
        ("client_id".to_string(), "abc".to_string()),
        ("code".to_string(), "code-1".to_string()),
        ("code_verifier".to_string(), "v".repeat(43)),
        ("grant_type".to_string(), "authorization_code".to_string()),
        ("redirect_uri".to_string(), "http://127.0.0.1:1".to_string()),
    ];
    assert_eq!(params, expected);
    let with_secret = PkceAttempt { client_secret: Some("s".to_string()), ..attempt };
    let params2 = code_exchange_params(&with_secret, "code-1");
    assert_eq!(params2.len(), 6);
    assert_eq!(
        params2[5],
        ("client_secret".to_string(), "s".to_string())
    );
}

#[test]
fn refresh_request_needs_token_and_client_id() {
    let ok = sample_session(None, Some("rt"));
    let params = refresh_request(&ok).unwrap();
    assert_eq!(params.len(), 3);
    let no_rt = sample_session(None, None);
    assert!(matches!(
        refresh_request(&no_rt),
        Err(AuthError::ExpiredSession)
    ));
    let mut no_cid = sample_session(None, Some("rt"));
    no_cid.client_id = None;
    assert!(matches!(
        refresh_request(&no_cid),
        Err(AuthError::ExpiredSession)
    ));
}

#[test]
fn config_error_description_never_names_a_token() {
    assert_eq!(AuthError::Config.describe(), "client_id empty");
    assert_eq!(
        AuthError::ExpiredSession.describe(),
        "session expired and no refresh is possible"
    );
}

#[test]
fn config_struct_round_trips_fields() {
    let cfg = GoogleAuthConfig {
        client_id: "abc".to_string(),
        client_secret: Some("s".to_string()),
    };
    assert_eq!(cfg.client_id, "abc");
    assert_eq!(cfg.client_secret, Some("s".to_string()));
}

#[test]
fn clock_driven_evaluation_matches_the_policy() {
    assert!(matches!(
        evaluate_stored_session(None),
        FreshnessDecision::NoSession
    ));
    let far = sample_session(Some(i64::MAX - 100), Some("rt"));
    assert!(matches!(
        evaluate_stored_session(Some(far)),
        FreshnessDecision::Fresh(_)
    ));
    let long_gone = sample_session(Some(0), Some("rt"));
    assert!(matches!(
        evaluate_stored_session(Some(long_gone)),
        FreshnessDecision::Refresh(_)
    ));
}
