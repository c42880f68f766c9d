//! The authorize endpoint: validates a client's request and prepares the
//! redirect to the provider, together with the pending authorization that the
//! callback will resume.
use vstd::prelude::*;

use crate::connector::{pkce_challenge_of, AuthClient, AuthorizationRequest};
use crate::error::{is_oauth_error, Error, OAuthErrorCode};
use crate::providers::{lookup, same_provider, Provider, ProviderRegistry};
use crate::scopes::{is_subset, requested_scopes, scope_set, scopes_of, views};
use crate::states::{equals, state_key, AuthorizeFlowState, AuthorizeFlowStateType, AUTHORIZE_STATE_TTL};

verus! {

/// A request to the authorize endpoint, as its query parameters.
#[derive(Clone, Debug)]
pub struct AuthorizeRequest {
    pub connection: Option<String>,
    pub response_type: String,
    pub client_id: String,
    pub redirect_uri: String,
    pub scope: Option<String>,
    pub state: String,
}

/// How an authorize request goes on.
#[derive(Clone, Debug)]
pub enum AuthorizeStart {
    /// No provider was named: the user is shown the provider picker.
    ProviderPicker,
    /// The named provider is configured; its client is to be built.
    Connect { connection: String, provider: Provider },
}

/// Checks the parts of an authorize request that need no store: the provider
/// picker when no provider is named, then the response type, then the
/// provider id.
pub fn start_authorize(req: &AuthorizeRequest, registry: &ProviderRegistry) -> (r: Result<
    AuthorizeStart,
    Error,
>)
    ensures
        match req.connection {
            None => r matches Ok(AuthorizeStart::ProviderPicker),
            Some(c) => if req.response_type@ != "code"@ {
                r is Err && is_oauth_error(
                    r->Err_0,
                    OAuthErrorCode::InvalidRequest,
                    "response_type must be code"@,
                )
            } else {
                match lookup(registry.entries@, c@) {
                    None => r matches Err(Error::InvalidConnection),
                    Some(p) => r matches Ok(AuthorizeStart::Connect { connection, provider })
                        && connection == c && same_provider(provider, p),
                }
            },
        },
{
    let connection = match &req.connection {
        None => {
            return Ok(AuthorizeStart::ProviderPicker);
        },
        Some(c) => c,
    };
    if !equals(&req.response_type, "code") {
        return Err(
            Error::OAuth2(OAuthErrorCode::InvalidRequest, String::from_str("response_type must be code")),
        );
    }
    let provider = registry.get_provider(connection)?;
    Ok(AuthorizeStart::Connect { connection: connection.clone(), provider })
}

/// What the authorize endpoint does once a request is accepted: store `flow`
/// under `key` for `ttl` seconds, then redirect the user to `redirect_url`.
#[derive(Clone, Debug)]
pub struct AuthorizePlan {
    pub csrf_token: String,
    pub key: String,
    pub flow: AuthorizeFlowState,
    pub ttl: u64,
    pub redirect_url: String,
}

/// The scopes that a request asks for.
pub open spec fn requested_of(req: AuthorizeRequest) -> Set<Seq<char>> {
    match req.scope {
        Some(s) => scopes_of(s@),
        None => Set::<Seq<char>>::empty(),
    }
}

/// Why an authorize request is refused, given the allowed scopes of the
/// application registered under its client id (`None`: no such application).
pub open spec fn authorize_refusal(req: AuthorizeRequest, allowed: Option<Vec<String>>) -> Option<
    (OAuthErrorCode, Seq<char>),
> {
    match allowed {
        None => Some((OAuthErrorCode::InvalidClient, "unable to find client"@)),
        Some(a) => if !requested_of(req).subset_of(scope_set(a@)) {
            Some(
                (
                    OAuthErrorCode::InvalidScope,
                    "requested scopes contain more than the allowed scopes"@,
                ),
            )
        } else {
            None
        },
    }
}

/// The nonce that a pending authorization expects, if any.
pub open spec fn nonce_of(ty: AuthorizeFlowStateType) -> Option<Seq<char>> {
    match ty {
        AuthorizeFlowStateType::OAuth2 => None,
        AuthorizeFlowStateType::Oidc { nonce } => Some(nonce@),
    }
}

/// Whether `plan` is a plan for `req` through `client`: the pending
/// authorization records the request and the PKCE verifier whose challenge
/// the redirect carries, under the key of the CSRF token that the redirect
/// carries.
pub open spec fn is_plan_for(
    plan: AuthorizePlan,
    req: AuthorizeRequest,
    connection: Seq<char>,
    client: AuthClient,
) -> bool {
    &&& plan.key@ == "state:"@ + plan.csrf_token@
    &&& plan.ttl == AUTHORIZE_STATE_TTL
    &&& plan.flow.connection@ == connection
    &&& plan.flow.state == req.state
    &&& plan.flow.client_id == req.client_id
    &&& plan.flow.redirect_uri == req.redirect_uri
    &&& scope_set(plan.flow.scopes@) == requested_of(req)
    &&& views(plan.flow.scopes@).no_duplicates()
    &&& (plan.flow.ty is Oidc <==> client is Oidc)
    &&& client.redirect_of(
        plan.csrf_token@,
        pkce_challenge_of(plan.flow.pkce_verifier@),
        nonce_of(plan.flow.ty),
    ) == plan.redirect_url@
}

/// Handles an authorize request for a configured provider.
///
/// `allowed` holds the scopes registered for the request's client id (`None`
/// when no application has it). A request is refused with `invalid_client`
/// for an unknown client and with `invalid_scope` when it asks for a scope
/// beyond the allowed ones; a refused request leaves nothing to store.
/// Otherwise a fresh authorization request is made at the provider; it
/// succeeds exactly when the configured provider addresses parse.
pub fn oauth_authorize(
    req: &AuthorizeRequest,
    connection: &String,
    client: &AuthClient,
    allowed: &Option<Vec<String>>,
) -> (r: Result<AuthorizePlan, Error>)
    ensures
        match authorize_refusal(*req, *allowed) {
            Some((c, d)) => r is Err && is_oauth_error(r->Err_0, c, d),
            None => {
                &&& (r is Ok <==> client.addresses_parse())
                &&& match r {
                    Ok(plan) => is_plan_for(plan, *req, connection@, *client),
                    Err(e) => e is ConfigurationError,
                }
            },
        },
{
    let requested = requested_scopes(&req.scope);
    let allowed = match allowed {
        Some(a) => a,
        None => {
            return Err(
                Error::OAuth2(OAuthErrorCode::InvalidClient, String::from_str("unable to find client")),
            );
        },
    };
    if !is_subset(&requested, allowed) {
        return Err(
            Error::OAuth2(
                OAuthErrorCode::InvalidScope,
                String::from_str("requested scopes contain more than the allowed scopes"),
            ),
        );
    }
    match client.authorize_url() {
        Some(a) => Ok(authorize_plan(req, connection, requested, a)),
        None => Err(Error::ConfigurationError),
    }
}

/// The plan for an accepted request, given the provider authorization
/// request that was made for it: the pending authorization keeps the
/// request, the granted scopes, the PKCE verifier and the nonce, under the key
/// of the CSRF token.
pub fn authorize_plan(
    req: &AuthorizeRequest,
    connection: &String,
    scopes: Vec<String>,
    a: AuthorizationRequest,
) -> (r: AuthorizePlan)
    ensures
        r.csrf_token == a.csrf_token,
        r.key@ == "state:"@ + a.csrf_token@,
        r.ttl == AUTHORIZE_STATE_TTL,
        r.redirect_url == a.url,
        r.flow.connection == *connection,
        r.flow.state == req.state,
        r.flow.client_id == req.client_id,
        r.flow.redirect_uri == req.redirect_uri,
        r.flow.scopes == scopes,
        r.flow.pkce_verifier == a.pkce_verifier,
        match a.nonce {
            Some(n) => r.flow.ty == (AuthorizeFlowStateType::Oidc { nonce: n }),
            None => r.flow.ty is OAuth2,
        },
{
    let ty = match a.nonce {
        Some(nonce) => AuthorizeFlowStateType::Oidc { nonce },
        None => AuthorizeFlowStateType::OAuth2,
    };
    let flow = AuthorizeFlowState {
        ty,
        connection: connection.clone(),
        state: req.state.clone(),
        pkce_verifier: a.pkce_verifier,
        scopes,
        client_id: req.client_id.clone(),
        redirect_uri: req.redirect_uri.clone(),
    };
    let key = state_key(&a.csrf_token);
    AuthorizePlan { csrf_token: a.csrf_token, key, flow, ttl: AUTHORIZE_STATE_TTL, redirect_url: a.url }
}

/// A request that asks for a scope beyond those of its application is refused
/// with `invalid_scope`, so no pending authorization is stored for it.
pub proof fn lemma_scope_beyond_allowed_rejected(req: AuthorizeRequest, allowed: Vec<String>)
    requires
        !requested_of(req).subset_of(scope_set(allowed@)),
    ensures
        authorize_refusal(req, Some(allowed)) matches Some((c, _)) && c
            == OAuthErrorCode::InvalidScope,
{
}

} // verus!
