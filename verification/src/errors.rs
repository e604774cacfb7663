use vstd::prelude::*;

verus! {

/// The ways a redirect or a provider response can break the protocol.
#[derive(Debug, PartialEq, Eq, Structural)]
pub enum ProtocolViolation {
    /// The redirect request line had fewer than two whitespace-separated tokens.
    MalformedRedirect,
    /// The redirect request path carried no query string.
    MissingQuery,
    /// A `state` parameter was present but did not match the attempt's state.
    StateMismatch,
    /// No `code` parameter was found in the redirect query.
    MissingCode,
    /// The provider answered with a success status but an unusable token body.
    MalformedTokenResponse,
}

/// Everything that can go wrong in the authentication subsystem.
#[derive(Debug)]
pub enum AuthError {
    /// The configured client id is missing or empty.
    Config,
    /// Transport failure while reaching the provider.
    Network(String),
    /// A malformed redirect or an unparsable provider body.
    Protocol(ProtocolViolation),
    /// A non-success HTTP status from the provider, with the body kept
    /// verbatim for diagnosis.
    Provider { status: u16, body: String },
    /// The session file could not be written.
    Persistence(String),
    /// A refresh is needed but the session lacks a refresh token or client id.
    ExpiredSession,
}

impl AuthError {
    /// A short human-readable description; the library never puts token
    /// values into these messages.
    pub fn describe(&self) -> (r: &'static str)
        ensures
            self is Config ==> r@ == "client_id empty"@,
            self is ExpiredSession ==> r@ == "session expired and no refresh is possible"@,
    {
        match self {
            AuthError::Config => "client_id empty",
            AuthError::Network(_) => "network failure reaching the provider",
            AuthError::Protocol(ProtocolViolation::MalformedRedirect) => "malformed redirect request",
            AuthError::Protocol(ProtocolViolation::MissingQuery) => "missing query in redirect",
            AuthError::Protocol(ProtocolViolation::StateMismatch) => "state mismatch",
            AuthError::Protocol(ProtocolViolation::MissingCode) => "authorization code missing",
            AuthError::Protocol(ProtocolViolation::MalformedTokenResponse) => "token decode failed",
            AuthError::Provider { .. } => "provider returned a non-success status",
            AuthError::Persistence(_) => "could not persist the session",
            AuthError::ExpiredSession => "session expired and no refresh is possible",
        }
    }
}

} // verus!
