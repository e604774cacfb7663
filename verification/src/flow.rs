use vstd::prelude::*;

use vstd::string::StrSliceExecFns;

use crate::authurl::auth_url_spec;
use crate::authurl::build_auth_url;
use crate::authurl::new_state_token;
use crate::authurl::redirect_uri_for_port;
use crate::authurl::redirect_uri_spec;
use crate::errors::AuthError;
use crate::errors::ProtocolViolation;
use crate::exchange::is_success_status;
use crate::exchange::token_outcome;
use crate::pkce::challenge_of;
use crate::pkce::generate_pkce_pair;
use crate::pkce::is_b64url_seq;
use crate::pkce::MAX_VERIFIER_LEN;
use crate::pkce::MIN_VERIFIER_LEN;
use crate::redirect::parse_redirect;
use crate::redirect::redirect_spec;
use crate::session::build_session;
use crate::session::expires_at_spec;
use crate::session::GoogleAuthConfig;
use crate::session::ProfileResponse;
use crate::session::Session;
use crate::session::TokenResponse;
use crate::textenc::trim_of;
use crate::textenc::trim_owned;

verus! {

/// The client secret actually used for an attempt: the configured one,
/// trimmed, and dropped entirely when it trims to nothing.
pub open spec fn effective_secret(configured: Option<String>, used: Option<String>) -> bool {
    match configured {
        None => used is None,
        Some(cs) => if trim_of(cs@).len() == 0 {
            used is None
        } else {
            used matches Some(u) && u@ == trim_of(cs@)
        },
    }
}

/// Checks the configured client identity: the id must be non-empty once
/// trimmed, and a blank secret counts as no secret at all.
pub fn validate_config(cfg: &GoogleAuthConfig) -> (r: Result<(String, Option<String>), AuthError>)
    ensures
        ({
            match r {
                Ok(p) => trim_of(cfg.client_id@).len() > 0 && p.0@ == trim_of(cfg.client_id@)
                    && effective_secret(cfg.client_secret, p.1),
                Err(AuthError::Config) => trim_of(cfg.client_id@).len() == 0,
                Err(_) => false,
            }
        }),
{
    let client_id = trim_owned(cfg.client_id.as_str());
    if client_id.as_str().unicode_len() == 0 {
        return Err(AuthError::Config);
    }
    let client_secret = match &cfg.client_secret {
        Option::None => Option::None,
        Option::Some(cs) => {
            let t = trim_owned(cs.as_str());
            if t.as_str().unicode_len() == 0 {
                Option::None
            } else {
                Option::Some(t)
            }
        },
    };
    Ok((client_id, client_secret))
}

/// Everything one authorization attempt needs, in memory only: the PKCE
/// pair, the single-use state token, the loopback redirect address, and the
/// client identity it was started for. Never persisted.
pub struct PkceAttempt {
    pub code_verifier: String,
    pub code_challenge: String,
    pub state: String,
    pub redirect_uri: String,
    pub client_id: String,
    pub client_secret: Option<String>,
}

impl PkceAttempt {
    /// The verifier is within the PKCE bounds and over the URL-safe
    /// alphabet, the challenge is derived from it, and a client id is known.
    pub open spec fn wf(self) -> bool {
        &&& MIN_VERIFIER_LEN <= self.code_verifier@.len() <= MAX_VERIFIER_LEN
        &&& is_b64url_seq(self.code_verifier@)
        &&& self.code_challenge@ == challenge_of(self.code_verifier@)
        &&& self.client_id@.len() > 0
        &&& self.state@.len() > 0
    }
}

/// Starts an authorization attempt on an already-bound ephemeral port:
/// validates the configuration, draws fresh PKCE material and a state
/// token, and returns the attempt together with the authorization URL to
/// open in the browser.
pub fn begin_attempt(cfg: &GoogleAuthConfig, port: u16) -> (r: Result<
    (PkceAttempt, String),
    AuthError,
>)
    ensures
        ({
            match r {
                Ok(p) => {
                    &&& trim_of(cfg.client_id@).len() > 0
                    &&& p.0.wf()
                    &&& p.0.client_id@ == trim_of(cfg.client_id@)
                    &&& effective_secret(cfg.client_secret, p.0.client_secret)
                    &&& p.0.redirect_uri@ == redirect_uri_spec(port)
                    &&& p.0.state@.len() == 36
                    &&& p.1@ == auth_url_spec(
                        p.0.client_id@,
                        p.0.redirect_uri@,
                        p.0.state@,
                        p.0.code_challenge@,
                    )
                },
                Err(AuthError::Config) => trim_of(cfg.client_id@).len() == 0,
                Err(_) => false,
            }
        }),
{
    let validated = validate_config(cfg);
    match validated {
        Err(e) => Err(e),
        Ok((client_id, client_secret)) => {
            let pair = generate_pkce_pair();
            let state = new_state_token();
            let redirect_uri = redirect_uri_for_port(port);
            let url = build_auth_url(
                client_id.as_str(),
                redirect_uri.as_str(),
                state.as_str(),
                pair.1.as_str(),
            );
            let attempt = PkceAttempt {
                code_verifier: pair.0,
                code_challenge: pair.1,
                state,
                redirect_uri,
                client_id,
                client_secret,
            };
            Ok((attempt, url))
        },
    }
}

/// Where one authorization attempt stands. The flow only ever moves
/// forward: waiting for the one redirect, exchanging its code, fetching
/// the profile, done; any failure is terminal for the attempt.
pub enum FlowState {
    /// No attempt under way.
    Idle,
    /// The browser was pointed at the consent page; the loopback listener
    /// is owed exactly one redirect for this attempt.
    AwaitingRedirect(PkceAttempt),
    /// The redirect delivered an authorization code bound to the attempt.
    ExchangingCode { attempt: PkceAttempt, code: String },
    /// The token endpoint answered; only identity claims are still owed.
    FetchingProfile { tok: TokenResponse, client_id: String, client_secret: Option<String> },
    /// The attempt produced a session ready to persist.
    Authenticated(Session),
    /// The attempt failed; nothing of it may be reused.
    Failed(AuthError),
}

impl FlowState {
    /// What each state guarantees about the data it carries.
    pub open spec fn wf(self) -> bool {
        match self {
            FlowState::Idle => true,
            FlowState::AwaitingRedirect(a) => a.wf(),
            FlowState::ExchangingCode { attempt, code } => attempt.wf(),
            FlowState::FetchingProfile { tok, client_id, client_secret } => tok.access_token@.len()
                > 0 && client_id@.len() > 0,
            FlowState::Authenticated(s) => s.wf(),
            FlowState::Failed(e) => true,
        }
    }
}

/// Starts an attempt: on a valid configuration the flow waits for the
/// redirect and hands back the authorization URL to open; an empty client
/// id fails the attempt before anything else happens.
pub fn start_sign_in(cfg: &GoogleAuthConfig, port: u16) -> (r: (FlowState, Option<String>))
    ensures
        r.0.wf(),
        ({
            match r.0 {
                FlowState::AwaitingRedirect(a) => {
                    &&& trim_of(cfg.client_id@).len() > 0
                    &&& a.client_id@ == trim_of(cfg.client_id@)
                    &&& effective_secret(cfg.client_secret, a.client_secret)
                    &&& a.redirect_uri@ == redirect_uri_spec(port)
                    &&& r.1 matches Some(url) && url@ == auth_url_spec(
                        a.client_id@,
                        a.redirect_uri@,
                        a.state@,
                        a.code_challenge@,
                    )
                },
                FlowState::Failed(AuthError::Config) => trim_of(cfg.client_id@).len() == 0 && r.1
                    is None,
                _ => false,
            }
        }),
{
    match begin_attempt(cfg, port) {
        Ok((attempt, url)) => (FlowState::AwaitingRedirect(attempt), Some(url)),
        Err(e) => (FlowState::Failed(e), None),
    }
}

/// Feeds the one redirect request into a waiting attempt: a state
/// mismatch, a missing code or a malformed request fails the attempt
/// outright; otherwise the code is ready to exchange.
pub fn on_redirect(attempt: PkceAttempt, request: &str) -> (r: FlowState)
    requires
        attempt.wf(),
    ensures
        r.wf(),
        ({
            match r {
                FlowState::ExchangingCode { attempt: a, code } => a == attempt && redirect_spec(
                    request@,
                    attempt.state@,
                ) == Ok::<Seq<char>, ProtocolViolation>(code@),
                FlowState::Failed(AuthError::Protocol(v)) => redirect_spec(request@, attempt.state@)
                    == Err::<Seq<char>, ProtocolViolation>(v),
                _ => false,
            }
        }),
{
    match parse_redirect(request, attempt.state.as_str()) {
        Ok(code) => FlowState::ExchangingCode { attempt, code },
        Err(e) => FlowState::Failed(e),
    }
}

/// Feeds the token endpoint's answer into an attempt that exchanged its
/// code: a non-success status or an unusable body fails the attempt;
/// otherwise only the profile is still owed.
pub fn on_token_response(
    attempt: PkceAttempt,
    status: u16,
    parsed: Option<TokenResponse>,
    body: String,
) -> (r: FlowState)
    requires
        attempt.wf(),
    ensures
        r.wf(),
        ({
            match r {
                FlowState::FetchingProfile { tok, client_id, client_secret } => {
                    &&& is_success_status(status)
                    &&& parsed == Some(tok)
                    &&& tok.access_token@.len() > 0
                    &&& client_id == attempt.client_id
                    &&& client_secret == attempt.client_secret
                },
                FlowState::Failed(e) => {
                    match e {
                        AuthError::Provider { status: s, body: b } => !is_success_status(status)
                            && s == status && b == body,
                        AuthError::Protocol(v) => is_success_status(status) && v
                            == ProtocolViolation::MalformedTokenResponse,
                        _ => false,
                    }
                },
                _ => false,
            }
        }),
{
    match token_outcome(status, parsed, body) {
        Ok(tok) => FlowState::FetchingProfile {
            tok,
            client_id: attempt.client_id,
            client_secret: attempt.client_secret,
        },
        Err(e) => FlowState::Failed(e),
    }
}

/// Finishes an attempt with the fetched identity claims at time `now`:
/// the resulting session is well formed and ready to persist.
pub fn on_profile(
    tok: TokenResponse,
    client_id: String,
    client_secret: Option<String>,
    profile: ProfileResponse,
    now: i64,
) -> (r: FlowState)
    requires
        tok.access_token@.len() > 0,
    ensures
        r.wf(),
        ({
            match r {
                FlowState::Authenticated(s) => {
                    &&& s.access_token == tok.access_token
                    &&& s.refresh_token == tok.refresh_token
                    &&& s.expires_at == expires_at_spec(now, tok.expires_in)
                    &&& s.id_token == tok.id_token
                    &&& s.sub == profile.sub
                    &&& s.email == profile.email
                    &&& s.name == profile.name
                    &&& s.picture == profile.picture
                    &&& s.client_id == Some(client_id)
                    &&& s.client_secret == client_secret
                },
                _ => false,
            }
        }),
{
    FlowState::Authenticated(build_session(tok, profile, client_id, client_secret, now))
}

} // verus!
