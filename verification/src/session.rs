use vstd::prelude::*;

verus! {

/// Seconds subtracted from a token's lifetime so the session is treated as
/// stale slightly before the token technically expires.
pub const EXPIRY_SKEW_SECS: i64 = 30;

/// The durable credential record: one signed-in identity per installation.
#[derive(Debug)]
pub struct Session {
    /// Opaque bearer token; non-empty whenever a session exists.
    pub access_token: String,
    /// Present when the provider granted offline access; carried forward on
    /// every refresh unless the provider issues a new one.
    pub refresh_token: Option<String>,
    /// Absolute expiry in seconds since the epoch, already shortened by
    /// [`EXPIRY_SKEW_SECS`].
    pub expires_at: Option<i64>,
    /// Opaque identity token, replaced whenever the provider reissues one.
    pub id_token: Option<String>,
    pub email: Option<String>,
    pub name: Option<String>,
    pub picture: Option<String>,
    pub sub: Option<String>,
    /// The registered application identity, needed for later refreshes.
    pub client_id: Option<String>,
    pub client_secret: Option<String>,
}

impl Session {
    /// A session is well formed exactly when its bearer token is non-empty.
    pub open spec fn wf(self) -> bool {
        self.access_token@.len() > 0
    }
}

fn clone_opt_string(o: &Option<String>) -> (r: Option<String>)
    ensures
        r == *o,
{
    match o {
        Option::None => Option::None,
        Option::Some(s) => Option::Some(s.clone()),
    }
}

impl Clone for Session {
    fn clone(&self) -> (r: Self)
        ensures
            r == *self,
    {
        Session {
            access_token: self.access_token.clone(),
            refresh_token: clone_opt_string(&self.refresh_token),
            expires_at: self.expires_at,
            id_token: clone_opt_string(&self.id_token),
            email: clone_opt_string(&self.email),
            name: clone_opt_string(&self.name),
            picture: clone_opt_string(&self.picture),
            sub: clone_opt_string(&self.sub),
            client_id: clone_opt_string(&self.client_id),
            client_secret: clone_opt_string(&self.client_secret),
        }
    }
}

/// The registered application identity handed to a sign-in attempt.
#[derive(Debug)]
pub struct GoogleAuthConfig {
    pub client_id: String,
    pub client_secret: Option<String>,
}

/// What a completed sign-in hands back to the caller.
#[derive(Debug)]
pub struct AuthResult {
    pub session: Session,
}

/// The useful fields of a token-endpoint response, either grant.
#[derive(Debug)]
pub struct TokenResponse {
    pub access_token: String,
    pub expires_in: Option<i64>,
    pub refresh_token: Option<String>,
    pub id_token: Option<String>,
}

/// Identity claims fetched with a fresh bearer token; every field is
/// optional and absence is not an error.
#[derive(Debug)]
pub struct ProfileResponse {
    pub sub: Option<String>,
    pub email: Option<String>,
    pub name: Option<String>,
    pub picture: Option<String>,
}

/// `x` forced into the range of `i64`.
pub open spec fn clamp_i64(x: int) -> i64 {
    if x > i64::MAX {
        i64::MAX
    } else if x < i64::MIN {
        i64::MIN
    } else {
        x as i64
    }
}

/// The absolute expiry recorded for a token that lives `expires_in` more
/// seconds from `now`: the sum, shortened by the safety skew.
pub open spec fn expiry_spec(now: i64, expires_in: i64) -> i64 {
    clamp_i64(now as int + expires_in as int - EXPIRY_SKEW_SECS as int)
}

/// Computes `now + expires_in - skew` without overflow.
pub fn compute_expiry(now: i64, expires_in: i64) -> (r: i64)
    ensures
        r == expiry_spec(now, expires_in),
{
    let wide: i128 = now as i128 + expires_in as i128 - EXPIRY_SKEW_SECS as i128;
    if wide > i64::MAX as i128 {
        i64::MAX
    } else if wide < i64::MIN as i128 {
        i64::MIN
    } else {
        wide as i64
    }
}

/// The expiry stored for a token response: absent when the provider sent no
/// `expires_in`.
pub open spec fn expires_at_spec(now: i64, expires_in: Option<i64>) -> Option<i64> {
    match expires_in {
        None => None,
        Some(s) => Some(expiry_spec(now, s)),
    }
}

fn compute_expires_at(now: i64, expires_in: &Option<i64>) -> (r: Option<i64>)
    ensures
        r == expires_at_spec(now, *expires_in),
{
    match expires_in {
        Option::None => Option::None,
        Option::Some(s) => Option::Some(compute_expiry(now, *s)),
    }
}

/// Builds the session persisted after a successful authorization-code
/// exchange and profile fetch at time `now`.
pub fn build_session(
    tok: TokenResponse,
    profile: ProfileResponse,
    client_id: String,
    client_secret: Option<String>,
    now: i64,
) -> (s: Session)
    requires
        tok.access_token@.len() > 0,
    ensures
        s.wf(),
        s.access_token == tok.access_token,
        s.refresh_token == tok.refresh_token,
        s.expires_at == expires_at_spec(now, tok.expires_in),
        s.id_token == tok.id_token,
        s.email == profile.email,
        s.name == profile.name,
        s.picture == profile.picture,
        s.sub == profile.sub,
        s.client_id == Some(client_id),
        s.client_secret == client_secret,
{
    let expires_at = compute_expires_at(now, &tok.expires_in);
    Session {
        access_token: tok.access_token,
        refresh_token: tok.refresh_token,
        expires_at,
        id_token: tok.id_token,
        email: profile.email,
        name: profile.name,
        picture: profile.picture,
        sub: profile.sub,
        client_id: Some(client_id),
        client_secret,
    }
}

/// The session that results from merging a refresh-grant response into an
/// existing session at time `now`: the bearer token and expiry are replaced,
/// the refresh and identity tokens only when the provider reissued them, and
/// everything else is carried forward.
pub open spec fn refreshed_spec(existing: Session, tok: TokenResponse, now: i64) -> Session {
    Session {
        access_token: tok.access_token,
        refresh_token: if tok.refresh_token is Some {
            tok.refresh_token
        } else {
            existing.refresh_token
        },
        expires_at: expires_at_spec(now, tok.expires_in),
        id_token: if tok.id_token is Some {
            tok.id_token
        } else {
            existing.id_token
        },
        ..existing
    }
}

/// Merges a successful refresh response into `existing` at time `now`.
pub fn apply_refresh(existing: Session, tok: TokenResponse, now: i64) -> (s: Session)
    requires
        tok.access_token@.len() > 0,
    ensures
        s == refreshed_spec(existing, tok, now),
        s.wf(),
{
    let expires_at = compute_expires_at(now, &tok.expires_in);
    let refresh_token = match tok.refresh_token {
        Option::Some(rt) => Option::Some(rt),
        Option::None => existing.refresh_token,
    };
    let id_token = match tok.id_token {
        Option::Some(idt) => Option::Some(idt),
        Option::None => existing.id_token,
    };
    Session {
        access_token: tok.access_token,
        refresh_token,
        expires_at,
        id_token,
        ..existing
    }
}

/// A refresh response that omits `refresh_token` always preserves the prior
/// refresh token in the merged session.
pub proof fn lemma_refresh_preserves_refresh_token(existing: Session, tok: TokenResponse, now: i64)
    requires
        tok.refresh_token is None,
    ensures
        refreshed_spec(existing, tok, now).refresh_token == existing.refresh_token,
{
}

} // verus!
