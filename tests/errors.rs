use auth_worker::error::{Error, OAuthErrorCode};

#[test]
fn protocol_errors_are_bad_requests() {
    let e = Error::OAuth2(OAuthErrorCode::InvalidScope, "too much".to_string());
    assert_eq!(e.status_code(), 400);
    assert_eq!(e.message(), "oauth2 error invalid_scope: too much");
    assert_eq!(OAuthErrorCode::UnsupportedGrantType.as_str(), "unsupported_grant_type");
}

#[test]
fn internal_errors_reveal_nothing() {
    for e in [Error::Kv, Error::D1, Error::Jwt, Error::MissingKeys, Error::DiscoveryError] {
        assert_eq!(e.status_code(), 500);
        assert_eq!(e.message(), "internal error");
    }
}

#[test]
fn domain_errors_have_fixed_messages() {
    assert_eq!(Error::InvalidConnection.status_code(), 400);
    assert_eq!(Error::InvalidConnection.message(), "invalid connection");
    assert_eq!(Error::InvalidAccessToken.message(), "invalid access token");
    assert_eq!(Error::MissingPermission.status_code(), 400);
    assert_eq!(Error::MissingPermission.message(), "missing permission");
    assert_eq!(Error::TokensNotFound.status_code(), 404);
    assert_eq!(Error::TokensNotFound.message(), "tokens not found");
}
