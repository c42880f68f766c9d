use auth_worker::callback::{
    connection_tokens_entry, exchange_request, extract_connection_tokens, finish_callback,
    load_flow, token_entries,
};
use auth_worker::connector::{AuthClient, OAuthClient};
use auth_worker::error::{Error, OAuthErrorCode};
use auth_worker::providers::OAuth2Provider;
use auth_worker::states::{
    AuthorizeFlowState, AuthorizeFlowStateType, ConnectionTokens, TokenMetadata,
};
use auth_worker::tokens::{generate_access_refresh_token_set, generate_code};
use auth_worker::user_tokens::{found_tokens, user_tokens_owner};
use auth_worker::users::User;

fn flow(redirect_uri: &str) -> AuthorizeFlowState {
    AuthorizeFlowState {
        ty: AuthorizeFlowStateType::OAuth2,
        connection: "github".to_string(),
        state: "xyz".to_string(),
        pkce_verifier: "v".repeat(43),
        scopes: vec!["openid".to_string(), "read:user_idp_tokens".to_string()],
        client_id: "app".to_string(),
        redirect_uri: redirect_uri.to_string(),
    }
}

fn client() -> AuthClient {
    AuthClient::OAuth2(OAuthClient::new(
        "c".to_string(),
        "s".to_string(),
        &OAuth2Provider {
            auth_url: "https://github.com/login/oauth/authorize".to_string(),
            token_url: "https://github.com/login/oauth/access_token".to_string(),
            scopes: vec![],
        },
        "https://auth.example",
    ))
}

#[test]
fn missing_flow_is_invalid_grant() {
    match load_flow(None) {
        Err(Error::OAuth2(c, _)) => assert_eq!(c, OAuthErrorCode::InvalidGrant),
        _ => panic!("expected invalid_grant"),
    }
    assert_eq!(load_flow(Some(flow("https://a.example/cb"))).unwrap().state, "xyz");
}

#[test]
fn exchange_resupplies_the_verifier() {
    let f = flow("https://a.example/cb");
    let x = exchange_request(&client(), &f, "provider-code".to_string()).unwrap();
    assert_eq!(x.pkce_verifier, f.pkce_verifier);
    assert_eq!(x.code, "provider-code");
    assert!(x.nonce.is_none());
    let mut g = f.clone();
    g.ty = AuthorizeFlowStateType::Oidc { nonce: "n".to_string() };
    match exchange_request(&client(), &g, "c".to_string()) {
        Err(Error::OAuth2(c, _)) => assert_eq!(c, OAuthErrorCode::InvalidRequest),
        _ => panic!("expected invalid_request"),
    }
}

#[test]
fn connection_tokens_default_to_a_week() {
    let t = extract_connection_tokens("at".to_string(), None, None);
    assert_eq!(t.expires_in, 604800);
    let t = extract_connection_tokens("at".to_string(), Some("rt".to_string()), Some(10));
    assert_eq!(t.expires_in, 10);
    let user = User::default_with_id("github|42".to_string());
    let e = connection_tokens_entry(&user, t);
    assert_eq!(e.key, "connection:github|42:tokens");
    assert_eq!(e.ttl, 2419200);
}

#[test]
fn local_tokens_are_recorded_for_the_user() {
    let tokens = generate_access_refresh_token_set();
    assert_eq!(tokens.access_token.len(), 32);
    assert_eq!(tokens.refresh_token.len(), 64);
    assert!(tokens.access_token.chars().all(|c| c.is_ascii_alphanumeric()));
    assert_eq!(tokens.expires_in, 604800);
    assert_eq!(tokens.refresh_expires_in, 2419200);
    let user = User::default_with_id("github|42".to_string());
    let f = flow("https://a.example/cb");
    let (access, refresh) = token_entries(&f, &user, &tokens);
    assert_eq!(access.key, format!("token:access:{}", tokens.access_token));
    assert_eq!(refresh.key, format!("token:refresh:{}", tokens.refresh_token));
    assert_eq!(access.value.client_id, "github|42");
    assert_eq!(refresh.value.scopes, f.scopes);
    assert_eq!(access.ttl, 604800);
    assert_eq!(refresh.ttl, 2419200);
}

#[test]
fn callback_redirects_with_code_and_state() {
    let tokens = generate_access_refresh_token_set();
    let code = generate_code();
    assert_eq!(code.len(), 16);
    let f = flow("https://a.example/cb");
    let plan = finish_callback(&f, &tokens, &code, "id.token.sig".to_string()).unwrap();
    assert_eq!(plan.redirect, format!("https://a.example/cb?code={code}&state=xyz"));
    assert_eq!(plan.entry.key, format!("code:{code}"));
    assert_eq!(plan.entry.ttl, 60);
    assert_eq!(plan.entry.value.client_id, "app");
    assert_eq!(plan.entry.value.redirect_uri, "https://a.example/cb");
    assert_eq!(plan.entry.value.reply.access_token, tokens.access_token);
    assert_eq!(plan.entry.value.reply.id_token, "id.token.sig");
    assert_eq!(plan.entry.value.reply.scopes, f.scopes);
}

#[test]
fn callback_rejects_malformed_redirect() {
    let tokens = generate_access_refresh_token_set();
    let f = flow("https://exa mple.com/cb");
    match finish_callback(&f, &tokens, &"c".to_string(), "t".to_string()) {
        Err(Error::OAuth2(c, d)) => {
            assert_eq!(c, OAuthErrorCode::InvalidRequest);
            assert_eq!(d, "redirect_uri is malformed");
        }
        _ => panic!("expected invalid_request"),
    }
}

#[test]
fn users_endpoint_checks_token_and_scope() {
    assert!(matches!(user_tokens_owner(&None), Err(Error::InvalidAccessToken)));
    let meta = TokenMetadata { client_id: "github|42".to_string(), scopes: vec!["openid".to_string()] };
    assert!(matches!(user_tokens_owner(&Some(meta)), Err(Error::MissingPermission)));
    let meta = TokenMetadata {
        client_id: "github|42".to_string(),
        scopes: vec!["read:user_idp_tokens".to_string()],
    };
    assert_eq!(user_tokens_owner(&Some(meta)).unwrap(), "github|42");
    assert!(matches!(found_tokens(None), Err(Error::TokensNotFound)));
    let t = ConnectionTokens { access_token: "a".to_string(), refresh_token: None, expires_in: 1 };
    assert_eq!(found_tokens(Some(t)).unwrap().access_token, "a");
}

#[test]
fn access_token_hash_mismatch_is_internal() {
    let ok = auth_worker::callback::check_access_token_hash(&"h".to_string(), &"h".to_string());
    assert!(ok.is_ok());
    let bad = auth_worker::callback::check_access_token_hash(&"h".to_string(), &"g".to_string());
    match bad {
        Err(e) => {
            assert!(matches!(e, Error::ClaimsVerificationError));
            assert_eq!(e.status_code(), 500);
        }
        Ok(()) => panic!("expected a verification failure"),
    }
}
