//! The records that the server keeps in its ephemeral key-value store, their
//! keys and their lifetimes.
use vstd::prelude::*;

verus! {

/// Lifetime of a pending authorization, in seconds (30 minutes).
pub const AUTHORIZE_STATE_TTL: u64 = 1800;

/// Lifetime of an authorization code, in seconds.
pub const CODE_TTL: u64 = 60;

/// Lifetime of the provider tokens kept for a user, in seconds (4 weeks).
pub const CONNECTION_TOKENS_TTL: u64 = 2419200;

/// Lifetime of a local access token, in seconds (1 week).
pub const ACCESS_TOKEN_TTL: u64 = 604800;

/// Lifetime of a local refresh token, in seconds (4 weeks).
pub const REFRESH_TOKEN_TTL: u64 = 2419200;

/// How the provider of a pending authorization speaks: plain OAuth 2.0, or
/// OpenID Connect with the nonce that its ID token must carry.
#[derive(Clone, Debug)]
pub enum AuthorizeFlowStateType {
    OAuth2,
    Oidc { nonce: String },
}

/// A pending authorization, kept under `state:<csrf>` while the user is at the
/// provider.
#[derive(Clone, Debug)]
pub struct AuthorizeFlowState {
    pub ty: AuthorizeFlowStateType,
    pub connection: String,
    /// The opaque state string of the client, handed back on the final redirect.
    pub state: String,
    pub pkce_verifier: String,
    pub scopes: Vec<String>,
    pub client_id: String,
    pub redirect_uri: String,
}

/// The token response prepared for a client at callback time.
#[derive(Clone, Debug)]
pub struct TokenReply {
    pub access_token: String,
    pub id_token: String,
    pub refresh_token: String,
    pub expires_in: u64,
    pub scopes: Vec<String>,
}

/// An issued authorization code, kept under `code:<code>`: the prepared
/// response and the client and redirect it is bound to.
#[derive(Clone, Debug)]
pub struct CodeFlowState {
    pub reply: TokenReply,
    pub client_id: String,
    pub redirect_uri: String,
}

/// What a local access or refresh token grants: the user it belongs to and the
/// scopes granted.
#[derive(Clone, Debug)]
pub struct TokenMetadata {
    pub client_id: String,
    pub scopes: Vec<String>,
}

/// The tokens that a provider issued for a user.
#[derive(Clone, Debug)]
pub struct ConnectionTokens {
    pub access_token: String,
    pub refresh_token: Option<String>,
    /// Seconds until the provider access token expires.
    pub expires_in: u64,
}

/// `prefix` followed by `s`.
fn prefixed(prefix: &str, s: &String) -> (r: String)
    ensures
        r@ == prefix@ + s@,
{
    String::from_str(prefix).concat(s.as_str())
}

/// The store key of a pending authorization.
pub fn state_key(csrf: &String) -> (r: String)
    ensures
        r@ == "state:"@ + csrf@,
{
    prefixed("state:", csrf)
}

/// The store key of an authorization code.
pub fn code_key(code: &String) -> (r: String)
    ensures
        r@ == "code:"@ + code@,
{
    prefixed("code:", code)
}

/// The store key of a local access token.
pub fn access_token_key(token: &String) -> (r: String)
    ensures
        r@ == "token:access:"@ + token@,
{
    prefixed("token:access:", token)
}

/// The store key of a local refresh token.
pub fn refresh_token_key(token: &String) -> (r: String)
    ensures
        r@ == "token:refresh:"@ + token@,
{
    prefixed("token:refresh:", token)
}

/// The store key of the provider tokens of a user.
pub fn connection_tokens_key(user_id: &String) -> (r: String)
    ensures
        r@ == "connection:"@ + user_id@ + ":tokens"@,
{
    prefixed("connection:", user_id).concat(":tokens")
}

/// Whether `a` reads exactly `b`.
pub fn equals(a: &String, b: &str) -> (r: bool)
    ensures
        r == (a@ == b@),
{
    *a == String::from_str(b)
}

} // verus!
