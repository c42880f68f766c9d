use auth_worker::error::{Error, OAuthErrorCode};
use auth_worker::states::{CodeFlowState, TokenReply};
use auth_worker::token::{oauth_token, verify_client_creds, TokenRequest};

fn reply() -> TokenReply {
    TokenReply {
        access_token: "access".to_string(),
        id_token: "id.token.sig".to_string(),
        refresh_token: "refresh".to_string(),
        expires_in: 604800,
        scopes: vec!["openid".to_string()],
    }
}

fn flow() -> CodeFlowState {
    CodeFlowState {
        reply: reply(),
        client_id: "client-a".to_string(),
        redirect_uri: "https://a.example/cb".to_string(),
    }
}

fn request() -> TokenRequest {
    TokenRequest {
        grant_type: "authorization_code".to_string(),
        client_id: "client-a".to_string(),
        client_secret: "secret-a".to_string(),
        code: "abcdefghijklmnop".to_string(),
        redirect_uri: "https://a.example/cb".to_string(),
    }
}

fn code_of(r: &Result<TokenReply, Error>) -> Option<OAuthErrorCode> {
    match r {
        Err(Error::OAuth2(c, _)) => Some(*c),
        _ => None,
    }
}

#[test]
fn token_exchange_succeeds_for_bound_client() {
    let r = oauth_token(&request(), &Some("secret-a".to_string()), Some(flow()));
    let reply = r.unwrap();
    assert_eq!(reply.access_token, "access");
    assert_eq!(reply.id_token, "id.token.sig");
    assert_eq!(reply.refresh_token, "refresh");
}

#[test]
fn token_mismatched_redirect_uri_is_invalid_grant() {
    let mut req = request();
    req.redirect_uri = "https://evil.example/cb".to_string();
    let r = oauth_token(&req, &Some("secret-a".to_string()), Some(flow()));
    assert_eq!(code_of(&r), Some(OAuthErrorCode::InvalidGrant));
    let e = r.unwrap_err();
    assert_eq!(e.status_code(), 400);
    assert_eq!(e.message(), "oauth2 error invalid_grant: redirect_uri does not belong to this flow");
}

#[test]
fn token_mismatched_client_id_is_invalid_grant() {
    let mut req = request();
    req.client_id = "client-b".to_string();
    req.client_secret = "secret-b".to_string();
    let r = oauth_token(&req, &Some("secret-b".to_string()), Some(flow()));
    assert_eq!(code_of(&r), Some(OAuthErrorCode::InvalidGrant));
}

#[test]
fn token_wrong_secret_is_invalid_client() {
    let r = oauth_token(&request(), &Some("other".to_string()), Some(flow()));
    assert_eq!(code_of(&r), Some(OAuthErrorCode::InvalidClient));
    let r = oauth_token(&request(), &None, Some(flow()));
    assert_eq!(code_of(&r), Some(OAuthErrorCode::InvalidClient));
}

#[test]
fn token_wrong_grant_type_is_unsupported() {
    let mut req = request();
    req.grant_type = "refresh_token".to_string();
    let r = oauth_token(&req, &Some("secret-a".to_string()), Some(flow()));
    assert_eq!(code_of(&r), Some(OAuthErrorCode::UnsupportedGrantType));
}

#[test]
fn token_unknown_code_is_invalid_grant() {
    let r = oauth_token(&request(), &Some("secret-a".to_string()), None);
    assert_eq!(code_of(&r), Some(OAuthErrorCode::InvalidGrant));
    assert_eq!(r.unwrap_err().message(), "oauth2 error invalid_grant: invalid code");
}

#[test]
fn client_creds_compare_secrets() {
    assert!(verify_client_creds(&Some("s".to_string()), &"s".to_string()));
    assert!(!verify_client_creds(&Some("s".to_string()), &"t".to_string()));
    assert!(!verify_client_creds(&None, &"s".to_string()));
}
