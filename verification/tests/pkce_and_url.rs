use base64::Engine;
use sha2::Digest;

use taura_auth::begin_attempt;
use taura_auth::build_auth_url;
use taura_auth::challenge_for;
use taura_auth::generate_pkce_pair;
use taura_auth::normalize_verifier;
use taura_auth::redirect_uri_for_port;
use taura_auth::u16_to_dec;
use taura_auth::validate_config;
use taura_auth::AuthError;
use taura_auth::GoogleAuthConfig;

fn expected_challenge(verifier: &str) -> String {
    let digest = sha2::Sha256::digest(verifier.as_bytes());
    base64::engine::general_purpose::URL_SAFE_NO_PAD.encode(digest)
}

#[test]
fn pkce_pair_is_in_bounds_and_challenge_is_deterministic() {
    let (verifier, challenge) = generate_pkce_pair();
    assert!(verifier.len() >= 43);
    assert!(verifier.len() <= 128);
    let again = challenge_for(&verifier);
    assert_eq!(challenge, again);
    assert_eq!(challenge, expected_challenge(&verifier));
}

#[test]
fn challenge_matches_known_pkce_vector() {
    // The worked example of RFC 7636, appendix B.
    let verifier = "dBjftJeZ4CVP-mB92K27uhbUJU1p1r_wW1gFWFOEjXk";
    let challenge = challenge_for(verifier);
    assert_eq!(challenge, "E9Melhoa2OwvFrEMTJguCHaoeK1t8URWbuGJSstw-cM");
}

#[test]
fn short_verifier_is_padded_to_minimum() {
    let raw = "abcdefghijklmnopqrstuvwxyzABCDEFGHIJKLMN";
    assert_eq!(raw.len(), 40);
    let v = normalize_verifier(raw.to_string());
    assert_eq!(v.len(), 43);
    assert_eq!(v, format!("{}AAA", raw));
    let challenge = challenge_for(&v);
    assert_eq!(challenge, expected_challenge(&v));
}

#[test]
fn in_bounds_verifier_is_kept_as_is() {
    let raw = "dBjftJeZ4CVP-mB92K27uhbUJU1p1r_wW1gFWFOEjXk";
    let v = normalize_verifier(raw.to_string());
    assert_eq!(v, raw);
}

#[test]
fn long_verifier_is_truncated_to_maximum() {
    let raw: String = "a".repeat(130);
    let v = normalize_verifier(raw);
    assert_eq!(v.len(), 128);
    assert_eq!(v, "a".repeat(128));
}

#[test]
fn port_renders_in_decimal() {
    assert_eq!(u16_to_dec(0), "0");
    assert_eq!(u16_to_dec(8080), "8080");
    assert_eq!(u16_to_dec(65535), "65535");
    assert_eq!(redirect_uri_for_port(7), "http://127.0.0.1:7");
}

#[test]
fn auth_url_encodes_every_variable_part() {
    let url = build_auth_url("my client", "http://127.0.0.1:4242", "st&te", "chal_lenge-1");
    let expected = "https://accounts.google.com/o/oauth2/v2/auth?response_type=code&client_id=my%20client&redirect_uri=http%3A%2F%2F127.0.0.1%3A4242&scope=openid%20email%20profile&state=st%26te&code_challenge=chal_lenge-1&code_challenge_method=S256&access_type=offline&prompt=consent";
    assert_eq!(url, expected);
}

#[test]
fn begin_attempt_builds_a_consistent_attempt() {
    let cfg = GoogleAuthConfig { client_id: "abc".to_string(), client_secret: None };
    let (attempt, url) = begin_attempt(&cfg, 8080).unwrap();
    assert_eq!(attempt.client_id, "abc");
    assert_eq!(attempt.client_secret, None);
    assert_eq!(attempt.redirect_uri, "http://127.0.0.1:8080");
    assert_eq!(attempt.state.len(), 36);
    assert!(attempt.code_verifier.len() >= 43 && attempt.code_verifier.len() <= 128);
    assert_eq!(attempt.code_challenge, expected_challenge(&attempt.code_verifier));
    let expected_url = format!(
        "https://accounts.google.com/o/oauth2/v2/auth?response_type=code&client_id=abc&redirect_uri=http%3A%2F%2F127.0.0.1%3A8080&scope=openid%20email%20profile&state={}&code_challenge={}&code_challenge_method=S256&access_type=offline&prompt=consent",
        attempt.state, attempt.code_challenge
    );
    assert_eq!(url, expected_url);
}

#[test]
fn empty_client_id_is_a_config_error() {
    let cfg = GoogleAuthConfig { client_id: "   ".to_string(), client_secret: None };
    assert!(matches!(validate_config(&cfg), Err(AuthError::Config)));
    assert!(matches!(begin_attempt(&cfg, 80), Err(AuthError::Config)));
}

#[test]
fn client_identity_is_trimmed_and_blank_secret_dropped() {
    let cfg = GoogleAuthConfig {
        client_id: "  abc  ".to_string(),
        client_secret: Some("   ".to_string()),
    };
    let (id, secret) = validate_config(&cfg).unwrap();
    assert_eq!(id, "abc");
    assert_eq!(secret, None);
    let cfg2 = GoogleAuthConfig {
        client_id: "abc".to_string(),
        client_secret: Some(" s3cret ".to_string()),
    };
    let (_, secret2) = validate_config(&cfg2).unwrap();
    assert_eq!(secret2, Some("s3cret".to_string()));
}
