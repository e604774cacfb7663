use vstd::prelude::*;

use vstd::string::StrSliceExecFns;
use vstd::string::StringExecFns;

use crate::errors::AuthError;
use crate::errors::ProtocolViolation;
use crate::flow::PkceAttempt;
use crate::redirect::pair_views;
use crate::session::Session;
use crate::session::TokenResponse;

verus! {

/// The form fields of the authorization-code grant, in order; the client
/// secret is sent only when one was configured.
pub open spec fn code_exchange_params_spec(
    client_id: Seq<char>,
    code: Seq<char>,
    verifier: Seq<char>,
    redirect_uri: Seq<char>,
    secret: Option<String>,
) -> Seq<(Seq<char>, Seq<char>)> {
    let base = seq![
        ("client_id"@, client_id),
        ("code"@, code),
        ("code_verifier"@, verifier),
        ("grant_type"@, "authorization_code"@),
        ("redirect_uri"@, redirect_uri),
    ];
    match secret {
        None => base,
        Some(cs) => base.push(("client_secret"@, cs@)),
    }
}

/// Builds the form body of the authorization-code grant for an attempt and
/// the code its redirect delivered.
pub fn code_exchange_params(attempt: &PkceAttempt, code: &str) -> (r: Vec<(String, String)>)
    ensures
        pair_views(r@) == code_exchange_params_spec(
            attempt.client_id@,
            code@,
            attempt.code_verifier@,
            attempt.redirect_uri@,
            attempt.client_secret,
        ),
{
    let mut params: Vec<(String, String)> = Vec::new();
    params.push((String::from_str("client_id"), attempt.client_id.clone()));
    params.push((String::from_str("code"), String::from_str(code)));
    params.push((String::from_str("code_verifier"), attempt.code_verifier.clone()));
    params.push((String::from_str("grant_type"), String::from_str("authorization_code")));
    params.push((String::from_str("redirect_uri"), attempt.redirect_uri.clone()));
    match &attempt.client_secret {
        Option::None => {},
        Option::Some(cs) => {
            params.push((String::from_str("client_secret"), cs.clone()));
        },
    }
    proof {
        assert(pair_views(params@) =~= code_exchange_params_spec(
            attempt.client_id@,
            code@,
            attempt.code_verifier@,
            attempt.redirect_uri@,
            attempt.client_secret,
        ));
    }
    params
}

/// The form fields of the refresh grant, in order; the client secret is
/// sent only when the session knows one.
pub open spec fn refresh_params_spec(
    client_id: Seq<char>,
    refresh_token: Seq<char>,
    secret: Option<String>,
) -> Seq<(Seq<char>, Seq<char>)> {
    let base = seq![
        ("client_id"@, client_id),
        ("grant_type"@, "refresh_token"@),
        ("refresh_token"@, refresh_token),
    ];
    match secret {
        None => base,
        Some(cs) => base.push(("client_secret"@, cs@)),
    }
}

/// Builds the refresh-grant form body for a stored session, or reports
/// that a refresh is impossible because the session lacks a refresh token
/// or a client id.
pub fn refresh_request(sess: &Session) -> (r: Result<Vec<(String, String)>, AuthError>)
    ensures
        ({
            match r {
                Ok(ps) => sess.refresh_token matches Some(rt) && sess.client_id matches Some(cid)
                    && pair_views(ps@) == refresh_params_spec(cid@, rt@, sess.client_secret),
                Err(AuthError::ExpiredSession) => sess.refresh_token is None || sess.client_id
                    is None,
                Err(_) => false,
            }
        }),
{
    let refresh_token = match &sess.refresh_token {
        Option::None => {
            return Err(AuthError::ExpiredSession);
        },
        Option::Some(rt) => rt,
    };
    let client_id = match &sess.client_id {
        Option::None => {
            return Err(AuthError::ExpiredSession);
        },
        Option::Some(cid) => cid,
    };
    let mut params: Vec<(String, String)> = Vec::new();
    params.push((String::from_str("client_id"), client_id.clone()));
    params.push((String::from_str("grant_type"), String::from_str("refresh_token")));
    params.push((String::from_str("refresh_token"), refresh_token.clone()));
    match &sess.client_secret {
        Option::None => {},
        Option::Some(cs) => {
            params.push((String::from_str("client_secret"), cs.clone()));
        },
    }
    proof {
        assert(pair_views(params@) =~= refresh_params_spec(
            sess.client_id->0@,
            sess.refresh_token->0@,
            sess.client_secret,
        ));
    }
    Ok(params)
}

/// An HTTP status in the success range.
pub open spec fn is_success_status(status: u16) -> bool {
    200 <= status < 300
}

/// Judges a token-endpoint answer, either grant: a non-success status is a
/// provider error carrying status and body verbatim; a success status whose
/// body did not yield a usable (non-empty) access token is a protocol
/// error; otherwise the parsed response stands.
pub fn token_outcome(status: u16, parsed: Option<TokenResponse>, body: String) -> (r: Result<
    TokenResponse,
    AuthError,
>)
    ensures
        ({
            match r {
                Ok(t) => is_success_status(status) && parsed == Some(t) && t.access_token@.len()
                    > 0,
                Err(AuthError::Provider { status: s, body: b }) => !is_success_status(status) && s
                    == status && b == body,
                Err(AuthError::Protocol(v)) => {
                    &&& is_success_status(status)
                    &&& v == ProtocolViolation::MalformedTokenResponse
                    &&& match parsed {
                        None => true,
                        Some(t) => t.access_token@.len() == 0,
                    }
                },
                Err(_) => false,
            }
        }),
{
    if status < 200 || status >= 300 {
        return Err(AuthError::Provider { status, body });
    }
    match parsed {
        Option::None => Err(AuthError::Protocol(ProtocolViolation::MalformedTokenResponse)),
        Option::Some(t) => {
            if t.access_token.as_str().unicode_len() == 0 {
                Err(AuthError::Protocol(ProtocolViolation::MalformedTokenResponse))
            } else {
                Ok(t)
            }
        },
    }
}

} // verus!
