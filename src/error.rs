//! The errors of the server and how each one is answered.
use vstd::prelude::*;

verus! {

/// The standard OAuth 2.0 error codes that the server returns.
#[derive(Clone, Copy, Debug, PartialEq, Eq, Structural)]
pub enum OAuthErrorCode {
    InvalidRequest,
    InvalidClient,
    InvalidGrant,
    UnauthorizedClient,
    UnsupportedGrantType,
    InvalidScope,
}

/// The wire name of an error code.
pub open spec fn error_code_name(c: OAuthErrorCode) -> Seq<char> {
    match c {
        OAuthErrorCode::InvalidRequest => "invalid_request"@,
        OAuthErrorCode::InvalidClient => "invalid_client"@,
        OAuthErrorCode::InvalidGrant => "invalid_grant"@,
        OAuthErrorCode::UnauthorizedClient => "unauthorized_client"@,
        OAuthErrorCode::UnsupportedGrantType => "unsupported_grant_type"@,
        OAuthErrorCode::InvalidScope => "invalid_scope"@,
    }
}

impl OAuthErrorCode {
    pub fn as_str(&self) -> (r: &'static str)
        ensures
            r@ == error_code_name(*self),
    {
        match self {
            OAuthErrorCode::InvalidRequest => "invalid_request",
            OAuthErrorCode::InvalidClient => "invalid_client",
            OAuthErrorCode::InvalidGrant => "invalid_grant",
            OAuthErrorCode::UnauthorizedClient => "unauthorized_client",
            OAuthErrorCode::UnsupportedGrantType => "unsupported_grant_type",
            OAuthErrorCode::InvalidScope => "invalid_scope",
        }
    }
}

/// Everything that can go wrong while serving a request.
///
/// Protocol errors carry a standard code and a description. Failures of the
/// stores, the providers and the signing machinery carry no detail: they are
/// answered with an opaque message.
#[derive(Clone, Debug)]
pub enum Error {
    OAuth2(OAuthErrorCode, String),
    Kv,
    D1,
    Reqwest,
    TokenExchangeError,
    UserInfoError,
    Jwt,
    DiscoveryError,
    MissingKeys,
    MissingIdToken,
    ClaimsVerificationError,
    SigningError,
    ConfigurationError,
    InvalidConnection,
    InvalidAccessToken,
    MissingPermission,
    TokensNotFound,
}

/// Whether an error stems from the infrastructure rather than from the request.
pub open spec fn is_internal(e: Error) -> bool {
    match e {
        Error::OAuth2(_, _) | Error::InvalidConnection | Error::InvalidAccessToken
        | Error::MissingPermission | Error::TokensNotFound => false,
        _ => true,
    }
}

/// The HTTP status with which an error is answered.
pub open spec fn status_of(e: Error) -> u16 {
    match e {
        Error::OAuth2(_, _) => 400,
        Error::InvalidConnection | Error::InvalidAccessToken | Error::MissingPermission => 400,
        Error::TokensNotFound => 404,
        _ => 500,
    }
}

/// The message with which an error is answered.
pub open spec fn message_of(e: Error) -> Seq<char> {
    match e {
        Error::OAuth2(c, d) => "oauth2 error "@ + error_code_name(c) + ": "@ + d@,
        Error::InvalidConnection => "invalid connection"@,
        Error::InvalidAccessToken => "invalid access token"@,
        Error::MissingPermission => "missing permission"@,
        Error::TokensNotFound => "tokens not found"@,
        _ => "internal error"@,
    }
}

/// Whether `e` is the protocol error with code `c` and description `d`.
pub open spec fn is_oauth_error(e: Error, c: OAuthErrorCode, d: Seq<char>) -> bool {
    match e {
        Error::OAuth2(c2, d2) => c2 == c && d2@ == d,
        _ => false,
    }
}

impl Error {
    /// The protocol error code, if this is a protocol error.
    pub open spec fn code(self) -> Option<OAuthErrorCode> {
        match self {
            Error::OAuth2(c, _) => Some(c),
            _ => None,
        }
    }

    /// The HTTP status of the response to this error.
    pub fn status_code(&self) -> (r: u16)
        ensures
            r == status_of(*self),
            r == 500 <==> is_internal(*self),
    {
        match self {
            Error::OAuth2(_, _) => 400,
            Error::InvalidConnection | Error::InvalidAccessToken | Error::MissingPermission => 400,
            Error::TokensNotFound => 404,
            _ => 500,
        }
    }

    /// The text of the response to this error; internal errors reveal nothing
    /// beyond the words "internal error".
    pub fn message(&self) -> (r: String)
        ensures
            r@ == message_of(*self),
    {
        match self {
            Error::OAuth2(c, d) => {
                let s = String::from_str("oauth2 error ");
                let s = s.concat(c.as_str());
                let s = s.concat(": ");
                s.concat(d.as_str())
            },
            Error::InvalidConnection => String::from_str("invalid connection"),
            Error::InvalidAccessToken => String::from_str("invalid access token"),
            Error::MissingPermission => String::from_str("missing permission"),
            Error::TokensNotFound => String::from_str("tokens not found"),
            _ => String::from_str("internal error"),
        }
    }
}

} // verus!
