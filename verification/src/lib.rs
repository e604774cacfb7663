//! Verified core of a desktop OAuth2 Authorization Code + PKCE sign-in:
//! PKCE material, the one-shot loopback redirect, token grants, the
//! expiry-driven refresh policy, and the session record and its store.

mod authurl;
mod errors;
mod exchange;
mod flow;
mod media;
mod pkce;
mod policy;
mod redirect;
mod session;
mod store;
mod textenc;

pub use errors::AuthError;
pub use errors::ProtocolViolation;

pub use session::AuthResult;
pub use session::GoogleAuthConfig;
pub use session::ProfileResponse;
pub use session::Session;
pub use session::TokenResponse;
pub use session::EXPIRY_SKEW_SECS;
pub use session::apply_refresh;
pub use session::build_session;
pub use session::compute_expiry;
pub use session::clamp_i64;
pub use session::expires_at_spec;
pub use session::expiry_spec;
pub use session::refreshed_spec;
pub use session::lemma_refresh_preserves_refresh_token;

pub use pkce::MIN_VERIFIER_LEN;
pub use pkce::MAX_VERIFIER_LEN;
pub use pkce::VERIFIER_FILLER;
pub use pkce::is_b64url_char;
pub use pkce::is_b64url_seq;
pub use pkce::b64url_of;
pub use pkce::sha256_of;
pub use pkce::ascii_bytes_of;
pub use pkce::challenge_of;
pub use pkce::filler;
pub use pkce::normalized_spec;
pub use pkce::normalize_verifier;
pub use pkce::challenge_for;
pub use pkce::generate_pkce_pair;
pub use pkce::lemma_challenge_deterministic;
pub use pkce::lemma_b64url_seq_is_ascii;
pub use pkce::lemma_filler_len;

pub use textenc::urldec_of;
pub use textenc::urlenc_of;
pub use textenc::trim_of;
pub use textenc::is_unreserved;

pub use redirect::confirmation_response;
pub use redirect::find_char_from;
pub use redirect::is_ws;
pub use redirect::scan_from;
pub use redirect::second_token;
pub use redirect::second_token_range;
pub use redirect::pair_of;
pub use redirect::pairs_from;
pub use redirect::query_pairs;
pub use redirect::pair_views;
pub use redirect::parse_query_pairs;
pub use redirect::has_bad_state;
pub use redirect::last_code_value;
pub use redirect::redirect_outcome;
pub use redirect::redirect_spec;
pub use redirect::evaluate_redirect_pairs;
pub use redirect::parse_redirect;
pub use redirect::lemma_state_mismatch_rejected;
pub use redirect::lemma_missing_code_rejected;
pub use redirect::lemma_find_char_from;
pub use redirect::lemma_scan_from;

pub use authurl::digit_char;
pub use authurl::dec_rep;
pub use authurl::u16_to_dec;
pub use authurl::redirect_uri_spec;
pub use authurl::redirect_uri_for_port;
pub use authurl::auth_scope;
pub use authurl::auth_url_spec;
pub use authurl::build_auth_url;

pub use flow::effective_secret;
pub use flow::validate_config;
pub use flow::PkceAttempt;
pub use flow::begin_attempt;
pub use flow::FlowState;
pub use flow::start_sign_in;
pub use flow::on_redirect;
pub use flow::on_token_response;
pub use flow::on_profile;

pub use exchange::code_exchange_params_spec;
pub use exchange::code_exchange_params;
pub use exchange::refresh_params_spec;
pub use exchange::refresh_request;
pub use exchange::is_success_status;
pub use exchange::token_outcome;

pub use policy::FRESHNESS_WINDOW_SECS;
pub use policy::is_fresh;
pub use policy::check_fresh;
pub use policy::RefreshPlan;
pub use policy::FreshnessDecision;
pub use policy::decision_matches;
pub use policy::ensure_fresh_step;
pub use policy::evaluate_stored_session;
pub use policy::lemma_fresh_session_unchanged;
pub use policy::lemma_stale_session_refreshed;
pub use policy::lemma_stale_without_refresh_token_expires;

pub use store::SessionStore;
pub use store::lemma_sign_out_idempotent;

pub use media::is_sep;
pub use media::last_sep_pos;
pub use media::last_dot_pos;
pub use media::ext_of;
pub use media::lower_char;
pub use media::lowered;
pub use media::is_media_ext;
pub use media::is_media_path;
pub use media::is_media_file;
pub use media::lemma_last_pos_bounds;
