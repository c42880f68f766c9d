//! The callback endpoint: resumes a pending authorization when the provider
//! redirects back, and issues the local tokens and the authorization code.
//!
//! The provider exchange, the profile fetch and the store writes are
//! performed by the caller between these steps, in this order: load the
//! pending authorization, exchange the code, build and upsert the user, store
//! the provider tokens, draw and store local tokens, sign the ID token, store
//! the code, redirect. A failing step ends the callback.
use vstd::prelude::*;

use crate::authorize::{is_plan_for, nonce_of, AuthorizePlan, AuthorizeRequest};
use crate::connector::{pkce_challenge_of, AuthClient};
use crate::error::{is_oauth_error, Error, OAuthErrorCode};
use crate::states::{
    access_token_key, code_key, connection_tokens_key, refresh_token_key, AuthorizeFlowState,
    AuthorizeFlowStateType, CodeFlowState, ConnectionTokens, TokenMetadata, TokenReply,
    ACCESS_TOKEN_TTL, CODE_TTL, CONNECTION_TOKENS_TTL,
};
use crate::tokens::AccessRefreshTokenSet;
use crate::users::User;

verus! {

/// A value to store under `key` for `ttl` seconds.
#[derive(Clone, Debug)]
pub struct Put<T> {
    pub key: String,
    pub value: T,
    pub ttl: u64,
}

/// The pending authorization found under the callback's state, or
/// `invalid_grant` when there is none (unknown or expired).
pub fn load_flow(flow: Option<AuthorizeFlowState>) -> (r: Result<AuthorizeFlowState, Error>)
    ensures
        match flow {
            Some(f) => r == Ok::<AuthorizeFlowState, Error>(f),
            None => r is Err && is_oauth_error(
                r->Err_0,
                OAuthErrorCode::InvalidGrant,
                "could not find flow for the given state"@,
            ),
        },
{
    match flow {
        Some(f) => Ok(f),
        None => Err(
            Error::OAuth2(
                OAuthErrorCode::InvalidGrant,
                String::from_str("could not find flow for the given state"),
            ),
        ),
    }
}

/// What the provider exchange is made with: the provider's code, the PKCE
/// verifier kept since authorize time and, for OpenID Connect, the nonce the
/// ID token must carry.
#[derive(Clone, Debug)]
pub struct ExchangeRequest {
    pub code: String,
    pub pkce_verifier: String,
    pub nonce: Option<String>,
}

/// Whether the kind of a client matches the kind of a pending authorization.
pub open spec fn kinds_agree(client: AuthClient, ty: AuthorizeFlowStateType) -> bool {
    (client is OAuth2 && ty is OAuth2) || (client is Oidc && ty is Oidc)
}

/// The provider exchange for a pending authorization; `invalid_request` when
/// the provider's kind no longer matches that of the pending authorization.
pub fn exchange_request(client: &AuthClient, flow: &AuthorizeFlowState, code: String) -> (r: Result<
    ExchangeRequest,
    Error,
>)
    ensures
        kinds_agree(*client, flow.ty) ==> (r matches Ok(x) && x.code == code && x.pkce_verifier
            == flow.pkce_verifier && crate::opt_view(x.nonce) == nonce_of(flow.ty)),
        !kinds_agree(*client, flow.ty) ==> r is Err && is_oauth_error(
            r->Err_0,
            OAuthErrorCode::InvalidRequest,
            "invalid flow"@,
        ),
{
    let nonce = match (client, &flow.ty) {
        (AuthClient::OAuth2(_), AuthorizeFlowStateType::OAuth2) => None,
        (AuthClient::Oidc(_), AuthorizeFlowStateType::Oidc { nonce }) => Some(nonce.clone()),
        _ => {
            return Err(Error::OAuth2(OAuthErrorCode::InvalidRequest, String::from_str("invalid flow")));
        },
    };
    Ok(ExchangeRequest { code, pkce_verifier: flow.pkce_verifier.clone(), nonce })
}

/// Checks the access-token hash that a provider's ID token claims against
/// the hash computed for the access token that came with it. A mismatch is a
/// failed verification of the provider's claims, an internal error.
pub fn check_access_token_hash(claimed: &String, computed: &String) -> (r: Result<(), Error>)
    ensures
        claimed@ == computed@ ==> r is Ok,
        claimed@ != computed@ ==> r matches Err(Error::ClaimsVerificationError),
{
    if *claimed == *computed {
        Ok(())
    } else {
        Err(Error::ClaimsVerificationError)
    }
}

/// The provider tokens of a token response; an unknown lifetime counts as one
/// week.
pub fn extract_connection_tokens(
    access_token: String,
    refresh_token: Option<String>,
    expires_in: Option<u64>,
) -> (r: ConnectionTokens)
    ensures
        r.access_token == access_token,
        r.refresh_token == refresh_token,
        r.expires_in == match expires_in {
            Some(e) => e,
            None => 604800,
        },
{
    let expires_in = match expires_in {
        Some(e) => e,
        None => 604800,
    };
    ConnectionTokens { access_token, refresh_token, expires_in }
}

/// The provider tokens of a user, stored under `connection:<user id>:tokens`
/// for four weeks.
pub fn connection_tokens_entry(user: &User, tokens: ConnectionTokens) -> (r: Put<ConnectionTokens>)
    ensures
        r.key@ == "connection:"@ + user.id@ + ":tokens"@,
        r.value == tokens,
        r.ttl == CONNECTION_TOKENS_TTL,
{
    Put { key: connection_tokens_key(&user.id), value: tokens, ttl: CONNECTION_TOKENS_TTL }
}

/// What each of the new local tokens grants: the user and the scopes of the
/// pending authorization, stored under the token for its lifetime.
pub fn token_entries(flow: &AuthorizeFlowState, user: &User, tokens: &AccessRefreshTokenSet) -> (r: (
    Put<TokenMetadata>,
    Put<TokenMetadata>,
))
    ensures
        r.0.key@ == "token:access:"@ + tokens.access_token@,
        r.0.value.client_id == user.id,
        r.0.value.scopes@ == flow.scopes@,
        r.0.ttl == tokens.expires_in,
        r.1.key@ == "token:refresh:"@ + tokens.refresh_token@,
        r.1.value.client_id == user.id,
        r.1.value.scopes@ == flow.scopes@,
        r.1.ttl == tokens.refresh_expires_in,
{
    let access = Put {
        key: access_token_key(&tokens.access_token),
        value: TokenMetadata {
            client_id: user.id.clone(),
            scopes: crate::providers::clone_strings(&flow.scopes),
        },
        ttl: tokens.expires_in,
    };
    let refresh = Put {
        key: refresh_token_key(&tokens.refresh_token),
        value: TokenMetadata {
            client_id: user.id.clone(),
            scopes: crate::providers::clone_strings(&flow.scopes),
        },
        ttl: tokens.refresh_expires_in,
    };
    (access, refresh)
}

/// The normalized form of a URI reference, `None` when it does not parse.
pub uninterp spec fn uri_of(s: Seq<char>) -> Option<Seq<char>>;

/// Relies on `Uri::from_str` of the `http` crate (re-exported by axum) and
/// its `Display`: parses a URI reference and writes it back.
#[verifier::external_body]
fn parse_uri(s: &String) -> (r: Option<String>)
    ensures
        crate::opt_view(r) == uri_of(s@),
{
    s.parse::<axum::http::Uri>().ok().map(|u| u.to_string())
}

/// The client redirect that completes an authorization.
pub open spec fn client_redirect_of(redirect_uri: Seq<char>, code: Seq<char>, state: Seq<char>) -> Seq<char> {
    redirect_uri + "?code="@ + code + "&state="@ + state
}

/// The end of a callback: store `entry`, then redirect the user to `redirect`.
#[derive(Clone, Debug)]
pub struct CallbackPlan {
    pub redirect: String,
    pub entry: Put<CodeFlowState>,
}

/// Prepares the token response for the client, binds it to a new
/// authorization code for sixty seconds, and builds the redirect back to the
/// client with the code and the client's state. `invalid_request` when the
/// client's redirect URI does not make a valid URI.
pub fn finish_callback(
    flow: &AuthorizeFlowState,
    tokens: &AccessRefreshTokenSet,
    code: &String,
    id_token: String,
) -> (r: Result<CallbackPlan, Error>)
    ensures
        match uri_of(client_redirect_of(flow.redirect_uri@, code@, flow.state@)) {
            None => r is Err && is_oauth_error(
                r->Err_0,
                OAuthErrorCode::InvalidRequest,
                "redirect_uri is malformed"@,
            ),
            Some(u) => r matches Ok(p) && {
                &&& p.redirect@ == u
                &&& p.entry.key@ == "code:"@ + code@
                &&& p.entry.ttl == CODE_TTL
                &&& p.entry.value.client_id == flow.client_id
                &&& p.entry.value.redirect_uri == flow.redirect_uri
                &&& p.entry.value.reply.access_token == tokens.access_token
                &&& p.entry.value.reply.refresh_token == tokens.refresh_token
                &&& p.entry.value.reply.id_token == id_token
                &&& p.entry.value.reply.expires_in == tokens.expires_in
                &&& p.entry.value.reply.scopes@ == flow.scopes@
            },
        },
{
    let target = flow.redirect_uri.clone().concat("?code=").concat(code.as_str()).concat(
        "&state=",
    ).concat(flow.state.as_str());
    let redirect = match parse_uri(&target) {
        Some(u) => u,
        None => {
            return Err(
                Error::OAuth2(
                    OAuthErrorCode::InvalidRequest,
                    String::from_str("redirect_uri is malformed"),
                ),
            );
        },
    };
    let reply = TokenReply {
        access_token: tokens.access_token.clone(),
        id_token,
        refresh_token: tokens.refresh_token.clone(),
        expires_in: tokens.expires_in,
        scopes: crate::providers::clone_strings(&flow.scopes),
    };
    let entry = Put {
        key: code_key(code),
        value: CodeFlowState {
            reply,
            client_id: flow.client_id.clone(),
            redirect_uri: flow.redirect_uri.clone(),
        },
        ttl: CODE_TTL,
    };
    Ok(CallbackPlan { redirect, entry })
}

/// The PKCE verifier kept at authorize time, resupplied in the provider
/// exchange, reproduces the challenge that the provider redirect carried.
pub proof fn lemma_pkce_round_trip(
    plan: AuthorizePlan,
    req: AuthorizeRequest,
    connection: Seq<char>,
    client: AuthClient,
    exchange: ExchangeRequest,
)
    requires
        is_plan_for(plan, req, connection, client),
        exchange.pkce_verifier == plan.flow.pkce_verifier,
    ensures
        client.redirect_of(
            plan.csrf_token@,
            pkce_challenge_of(exchange.pkce_verifier@),
            nonce_of(plan.flow.ty),
        ) == plan.redirect_url@,
{
}

} // verus!
