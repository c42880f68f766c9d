//! Connectors: the protocol operations of one configured provider, uniform
//! over plain OAuth 2.0 and OpenID Connect.
//!
//! A connector builds the redirect that sends a user to the provider, with a
//! fresh CSRF token, a PKCE challenge whose verifier the server keeps, and for
//! OpenID Connect a nonce.
use vstd::prelude::*;

use oauth2::basic::BasicClient;
use oauth2::{AuthUrl, ClientId, CsrfToken, PkceCodeChallenge, PkceCodeVerifier, RedirectUrl, Scope};
use openidconnect::{IssuerUrl, Nonce};

use crate::error::Error;
use crate::providers::{OAuth2Provider, OidcProvider, Provider};
use crate::scopes::views;

verus! {

/// The PKCE challenge (S256 method) of a code verifier: the URL-safe base64 of
/// its SHA-256 digest.
pub uninterp spec fn pkce_challenge_of(verifier: Seq<char>) -> Seq<char>;

/// Whether a text parses as an absolute URL (`url::Url::parse`, which the
/// address types of oauth2 and openidconnect call in their `new`).
pub uninterp spec fn url_parses(s: Seq<char>) -> bool;

/// The address of an OAuth 2.0 authorization request: the authorization
/// endpoint with `response_type=code`, the client id, the state, the S256
/// PKCE challenge, the redirect URI and the scopes in its query.
pub uninterp spec fn authorization_url_of(
    auth_url: Seq<char>,
    client_id: Seq<char>,
    redirect_url: Seq<char>,
    scopes: Seq<Seq<char>>,
    state: Seq<char>,
    challenge: Seq<char>,
) -> Seq<char>;

/// The address of an OpenID Connect authentication request (authorization
/// code flow): as an OAuth 2.0 request whose scopes start with `openid`, with
/// the nonce added.
pub uninterp spec fn oidc_authorization_url_of(
    auth_url: Seq<char>,
    client_id: Seq<char>,
    redirect_url: Seq<char>,
    scopes: Seq<Seq<char>>,
    state: Seq<char>,
    challenge: Seq<char>,
    nonce: Seq<char>,
) -> Seq<char>;

/// Whether a character is one of the URL-safe base64 alphabet: an ASCII
/// letter or digit, `-` or `_` (all within RFC 7636's unreserved set).
pub open spec fn is_base64url_char(c: char) -> bool {
    crate::is_alphanumeric(c) || c == '-' || c == '_'
}

/// Whether a text can serve as a PKCE code verifier: 43 to 128 characters,
/// all ASCII from the URL-safe base64 alphabet, so that its length in bytes,
/// which oauth2 checks, is its length in characters.
pub open spec fn is_pkce_verifier(v: Seq<char>) -> bool {
    &&& 43 <= v.len() <= 128
    &&& forall|i: int| 0 <= i < v.len() ==> is_base64url_char(#[trigger] v[i])
}

/// A fresh PKCE code verifier.
///
/// Relies on oauth2's `PkceCodeChallenge::new_random_sha256`: it draws 32
/// random bytes and encodes them as URL-safe base64 without padding
/// (43 characters), checking that the length is within 43..=128.
#[verifier::external_body]
fn new_pkce_verifier() -> (r: String)
    ensures
        is_pkce_verifier(r@),
{
    PkceCodeChallenge::new_random_sha256().1.secret().clone()
}

/// Relies on oauth2's `CsrfToken::new_random`: a fresh random CSRF token.
#[verifier::external_body]
fn new_csrf_token() -> String {
    CsrfToken::new_random().secret().clone()
}

/// Relies on openidconnect's `Nonce::new_random`: a fresh random nonce.
#[verifier::external_body]
fn new_nonce() -> String {
    Nonce::new_random().secret().clone()
}

/// Relies on oauth2's `BasicClient::authorize_url`, `set_pkce_challenge` with
/// `PkceCodeChallenge::from_code_verifier_sha256` (which asserts that the
/// verifier has 43 to 128 bytes), and `AuthorizationRequest::url`. Only the two addresses can fail
/// to parse; building the query cannot fail.
#[verifier::external_body]
fn authorization_url(
    auth_url: &String,
    client_id: &String,
    redirect_url: &String,
    scopes: &Vec<String>,
    state: &String,
    verifier: &String,
) -> (r: Option<String>)
    requires
        is_pkce_verifier(verifier@),
    ensures
        match r {
            Some(u) => url_parses(auth_url@) && url_parses(redirect_url@) && u@
                == authorization_url_of(
                auth_url@,
                client_id@,
                redirect_url@,
                views(scopes@),
                state@,
                pkce_challenge_of(verifier@),
            ),
            None => !(url_parses(auth_url@) && url_parses(redirect_url@)),
        },
{
    let client = BasicClient::new(ClientId::new(client_id.clone()), None, AuthUrl::new(auth_url.clone()).ok()?, None)
        .set_redirect_uri(RedirectUrl::new(redirect_url.clone()).ok()?);
    let challenge = PkceCodeChallenge::from_code_verifier_sha256(&PkceCodeVerifier::new(verifier.clone()));
    let req = client.authorize_url(|| CsrfToken::new(state.clone()))
        .add_scopes(scopes.iter().map(|s| Scope::new(s.clone())))
        .set_pkce_challenge(challenge);
    Some(req.url().0.to_string())
}

/// Relies on openidconnect's `CoreClient::new` and `authorize_url` with the
/// authorization code flow (which adds the `openid` scope first and the
/// nonce), `set_pkce_challenge` with `PkceCodeChallenge::from_code_verifier_sha256`,
/// and `url`. Only the three addresses can fail to parse.
#[verifier::external_body]
fn oidc_authorization_url(
    issuer_url: &String,
    auth_url: &String,
    client_id: &String,
    redirect_url: &String,
    scopes: &Vec<String>,
    state: String,
    verifier: &String,
    nonce: String,
) -> (r: Option<String>)
    requires
        is_pkce_verifier(verifier@),
    ensures
        match r {
            Some(u) => url_parses(issuer_url@) && url_parses(auth_url@) && url_parses(redirect_url@)
                && u@ == oidc_authorization_url_of(
                auth_url@,
                client_id@,
                redirect_url@,
                views(scopes@),
                state@,
                pkce_challenge_of(verifier@),
                nonce@,
            ),
            None => !(url_parses(issuer_url@) && url_parses(auth_url@) && url_parses(redirect_url@)),
        },
{
    let client = openidconnect::core::CoreClient::new(ClientId::new(client_id.clone()), None, IssuerUrl::new(issuer_url.clone()).ok()?,
        AuthUrl::new(auth_url.clone()).ok()?, None, None, Default::default())
        .set_redirect_uri(RedirectUrl::new(redirect_url.clone()).ok()?);
    let mut req = client.authorize_url(openidconnect::core::CoreAuthenticationFlow::AuthorizationCode, move || CsrfToken::new(state), move || Nonce::new(nonce));
    for s in scopes.iter() {
        req = req.add_scope(Scope::new(s.clone()));
    }
    let challenge = PkceCodeChallenge::from_code_verifier_sha256(&PkceCodeVerifier::new(verifier.clone()));
    Some(req.set_pkce_challenge(challenge).url().0.to_string())
}

/// The address on this server that providers redirect back to.
pub open spec fn callback_url_of(domain: Seq<char>) -> Seq<char> {
    domain + "/oauth/callback"@
}

pub fn callback_url(domain: &str) -> (r: String)
    ensures
        r@ == callback_url_of(domain@),
{
    String::from_str(domain).concat("/oauth/callback")
}

/// A client of a plain OAuth 2.0 provider.
#[derive(Clone, Debug)]
pub struct OAuthClient {
    pub client_id: String,
    pub client_secret: String,
    pub auth_url: String,
    pub token_url: String,
    pub redirect_url: String,
    pub scopes: Vec<String>,
}

/// The endpoints found by OpenID Connect discovery at a provider's issuer.
#[derive(Clone, Debug)]
pub struct DiscoveredEndpoints {
    pub auth_url: String,
    pub token_url: String,
}

/// A client of an OpenID Connect provider.
#[derive(Clone, Debug)]
pub struct OidcClient {
    pub client_id: String,
    pub client_secret: String,
    pub issuer_url: String,
    pub auth_url: String,
    pub token_url: String,
    pub redirect_url: String,
    pub scopes: Vec<String>,
}

impl OAuthClient {
    /// The client of `provider`, with the server's registered credentials and
    /// its callback on `domain`.
    pub fn new(client_id: String, client_secret: String, provider: &OAuth2Provider, domain: &str) -> (r: Self)
        ensures
            r.client_id == client_id,
            r.client_secret == client_secret,
            r.auth_url == provider.auth_url,
            r.token_url == provider.token_url,
            r.redirect_url@ == callback_url_of(domain@),
            r.scopes@ == provider.scopes@,
    {
        OAuthClient {
            client_id,
            client_secret,
            auth_url: provider.auth_url.clone(),
            token_url: provider.token_url.clone(),
            redirect_url: callback_url(domain),
            scopes: crate::providers::clone_strings(&provider.scopes),
        }
    }
}

impl OidcClient {
    /// The client of `provider`, whose endpoints were discovered at its issuer.
    pub fn new(
        client_id: String,
        client_secret: String,
        provider: &OidcProvider,
        endpoints: &DiscoveredEndpoints,
        domain: &str,
    ) -> (r: Self)
        ensures
            r.client_id == client_id,
            r.client_secret == client_secret,
            r.issuer_url == provider.issuer_url,
            r.auth_url == endpoints.auth_url,
            r.token_url == endpoints.token_url,
            r.redirect_url@ == callback_url_of(domain@),
            r.scopes@ == provider.scopes@,
    {
        OidcClient {
            client_id,
            client_secret,
            issuer_url: provider.issuer_url.clone(),
            auth_url: endpoints.auth_url.clone(),
            token_url: endpoints.token_url.clone(),
            redirect_url: callback_url(domain),
            scopes: crate::providers::clone_strings(&provider.scopes),
        }
    }
}

/// The client of one provider, of either kind.
#[derive(Clone, Debug)]
pub enum AuthClient {
    OAuth2(OAuthClient),
    Oidc(OidcClient),
}

/// What the server sends a user to a provider with, and what it keeps.
#[derive(Clone, Debug)]
pub struct AuthorizationRequest {
    pub url: String,
    pub csrf_token: String,
    pub pkce_verifier: String,
    pub nonce: Option<String>,
}

impl AuthClient {
    /// Whether the configured addresses of the client parse, so that a
    /// provider redirect can be built.
    pub open spec fn addresses_parse(self) -> bool {
        match self {
            AuthClient::OAuth2(c) => url_parses(c.auth_url@) && url_parses(c.redirect_url@),
            AuthClient::Oidc(c) => url_parses(c.issuer_url@) && url_parses(c.auth_url@)
                && url_parses(c.redirect_url@),
        }
    }

    /// The provider redirect for the given state, PKCE challenge and, for
    /// OpenID Connect, nonce.
    pub open spec fn redirect_of(self, state: Seq<char>, challenge: Seq<char>, nonce: Option<Seq<char>>) -> Seq<char> {
        match self {
            AuthClient::OAuth2(c) => authorization_url_of(
                c.auth_url@,
                c.client_id@,
                c.redirect_url@,
                views(c.scopes@),
                state,
                challenge,
            ),
            AuthClient::Oidc(c) => oidc_authorization_url_of(
                c.auth_url@,
                c.client_id@,
                c.redirect_url@,
                views(c.scopes@),
                state,
                challenge,
                match nonce {
                    Some(n) => n,
                    None => Seq::<char>::empty(),
                },
            ),
        }
    }

    /// The authorization request for the given CSRF token, PKCE verifier and,
    /// for OpenID Connect, nonce; `None` exactly when a configured address
    /// does not parse.
    pub fn build_authorization_request(
        &self,
        csrf_token: String,
        pkce_verifier: String,
        nonce: String,
    ) -> (r: Option<AuthorizationRequest>)
        requires
            is_pkce_verifier(pkce_verifier@),
        ensures
            r is Some <==> self.addresses_parse(),
            r matches Some(a) ==> {
                &&& a.csrf_token == csrf_token
                &&& a.pkce_verifier == pkce_verifier
                &&& a.nonce == match self {
                    AuthClient::OAuth2(_) => None::<String>,
                    AuthClient::Oidc(_) => Some(nonce),
                }
                &&& a.url@ == self.redirect_of(
                    csrf_token@,
                    pkce_challenge_of(pkce_verifier@),
                    crate::opt_view(a.nonce),
                )
            },
    {
        match self {
            AuthClient::OAuth2(c) => {
                let url = authorization_url(
                    &c.auth_url,
                    &c.client_id,
                    &c.redirect_url,
                    &c.scopes,
                    &csrf_token,
                    &pkce_verifier,
                )?;
                Some(AuthorizationRequest { url, csrf_token, pkce_verifier, nonce: None })
            },
            AuthClient::Oidc(c) => {
                let url = oidc_authorization_url(
                    &c.issuer_url,
                    &c.auth_url,
                    &c.client_id,
                    &c.redirect_url,
                    &c.scopes,
                    csrf_token.clone(),
                    &pkce_verifier,
                    nonce.clone(),
                )?;
                Some(AuthorizationRequest { url, csrf_token, pkce_verifier, nonce: Some(nonce) })
            },
        }
    }

    /// A fresh authorization request: a new CSRF token, a new PKCE verifier
    /// and, for OpenID Connect, a new nonce. Whatever was drawn, the redirect
    /// carries the challenge of the verifier that is returned to be kept, and
    /// it is built exactly when the configured addresses parse.
    pub fn authorize_url(&self) -> (r: Option<AuthorizationRequest>)
        ensures
            r is Some <==> self.addresses_parse(),
            r matches Some(a) ==> {
                &&& is_pkce_verifier(a.pkce_verifier@)
                &&& (a.nonce is Some <==> self is Oidc)
                &&& a.url@ == self.redirect_of(
                    a.csrf_token@,
                    pkce_challenge_of(a.pkce_verifier@),
                    crate::opt_view(a.nonce),
                )
            },
    {
        let verifier = new_pkce_verifier();
        let csrf = new_csrf_token();
        let nonce = match self {
            AuthClient::OAuth2(_) => String::new(),
            AuthClient::Oidc(_) => new_nonce(),
        };
        self.build_authorization_request(csrf, verifier, nonce)
    }
}

/// The upper-case form of a text, by Unicode case mapping.
pub uninterp spec fn upper_of(s: Seq<char>) -> Seq<char>;

/// Relies on `str::to_uppercase`: the result depends on the characters alone.
#[verifier::external_body]
fn to_uppercase(s: &String) -> (r: String)
    ensures
        r@ == upper_of(s@),
{
    s.to_uppercase()
}

/// The names of the variables that hold the server's credentials at a
/// provider, given the provider id in upper case: `<ID>_CLIENT_ID` and
/// `<ID>_CLIENT_SECRET`.
pub fn credential_vars_of(upper_id: &String) -> (r: (String, String))
    ensures
        r.0@ == upper_id@ + "_CLIENT_ID"@,
        r.1@ == upper_id@ + "_CLIENT_SECRET"@,
{
    (upper_id.clone().concat("_CLIENT_ID"), upper_id.clone().concat("_CLIENT_SECRET"))
}

/// The names of the variables that hold the server's credentials at the
/// provider `id`.
pub fn credential_vars(id: &String) -> (r: (String, String))
    ensures
        r.0@ == upper_of(id@) + "_CLIENT_ID"@,
        r.1@ == upper_of(id@) + "_CLIENT_SECRET"@,
{
    credential_vars_of(&to_uppercase(id))
}

impl AuthClient {
    /// The client of a configured provider. An OpenID Connect provider needs
    /// the endpoints discovered at its issuer; without them the client cannot
    /// be built (`DiscoveryError`).
    pub fn new(
        provider: &Provider,
        client_id: String,
        client_secret: String,
        domain: &str,
        endpoints: &Option<DiscoveredEndpoints>,
    ) -> (r: Result<AuthClient, Error>)
        ensures
            match *provider {
                Provider::OAuth2(p) => r matches Ok(AuthClient::OAuth2(c)) && c.client_id
                    == client_id && c.client_secret == client_secret && c.auth_url == p.auth_url
                    && c.token_url == p.token_url && c.scopes@ == p.scopes@ && c.redirect_url@
                    == callback_url_of(domain@),
                Provider::Oidc(p) => match *endpoints {
                    None => r matches Err(Error::DiscoveryError),
                    Some(e) => r matches Ok(AuthClient::Oidc(c)) && c.client_id == client_id
                        && c.client_secret == client_secret && c.issuer_url == p.issuer_url
                        && c.auth_url == e.auth_url && c.token_url == e.token_url && c.scopes@
                        == p.scopes@ && c.redirect_url@ == callback_url_of(domain@),
                },
            },
    {
        match provider {
            Provider::OAuth2(p) => Ok(AuthClient::OAuth2(OAuthClient::new(client_id, client_secret, p, domain))),
            Provider::Oidc(p) => match endpoints {
                None => Err(Error::DiscoveryError),
                Some(e) => Ok(AuthClient::Oidc(OidcClient::new(client_id, client_secret, p, e, domain))),
            },
        }
    }
}

} // verus!
