//! Local tokens: access and refresh tokens, authorization codes, and signed
//! ID tokens.
use vstd::prelude::*;

use oauth2::{AccessToken, AuthorizationCode};
use openidconnect::{
    Audience, EmptyAdditionalClaims, EndUserEmail, EndUserFamilyName, EndUserGivenName, EndUserName,
    EndUserNickname, EndUserPhoneNumber, EndUserPictureUrl, EndUserUsername, IssuerUrl, JsonWebKeyId,
    StandardClaims, SubjectIdentifier,
};

use crate::keys::{is_readable_signing_key, is_signing_pem, Pem};
use crate::users::User;
use crate::{all_alphanumeric, gen_string};

verus! {

/// Length of a local access token.
pub const ACCESS_TOKEN_LEN: usize = 32;

/// Length of a local refresh token.
pub const REFRESH_TOKEN_LEN: usize = 64;

/// Length of an authorization code.
pub const CODE_LEN: usize = 16;

/// How long an ID token is valid, in seconds (10 hours).
pub const ID_TOKEN_LIFETIME: i64 = 36000;

/// A fresh access token and refresh token with their lifetimes in seconds.
#[derive(Clone, Debug)]
pub struct AccessRefreshTokenSet {
    pub access_token: String,
    pub expires_in: u64,
    pub refresh_token: String,
    pub refresh_expires_in: u64,
}

/// Draws a fresh access token (32 letters and digits, valid one week) and
/// refresh token (64 letters and digits, valid four weeks).
pub fn generate_access_refresh_token_set() -> (r: AccessRefreshTokenSet)
    ensures
        r.access_token@.len() == ACCESS_TOKEN_LEN,
        all_alphanumeric(r.access_token@),
        r.refresh_token@.len() == REFRESH_TOKEN_LEN,
        all_alphanumeric(r.refresh_token@),
        r.expires_in == crate::states::ACCESS_TOKEN_TTL,
        r.refresh_expires_in == crate::states::REFRESH_TOKEN_TTL,
{
    AccessRefreshTokenSet {
        access_token: gen_string(ACCESS_TOKEN_LEN),
        expires_in: crate::states::ACCESS_TOKEN_TTL,
        refresh_token: gen_string(REFRESH_TOKEN_LEN),
        refresh_expires_in: crate::states::REFRESH_TOKEN_TTL,
    }
}

/// Draws a fresh authorization code of 16 letters and digits.
pub fn generate_code() -> (r: String)
    ensures
        r@.len() == CODE_LEN,
        all_alphanumeric(r@),
{
    gen_string(CODE_LEN)
}

/// The claims of an ID token, before the token hashes are added at signing.
/// Times are in seconds since the epoch.
#[derive(Clone, Debug)]
pub struct IdTokenClaims {
    pub issuer: String,
    pub audience: String,
    pub subject: String,
    pub issued_at: i64,
    pub expiration: i64,
    pub email: Option<String>,
    pub email_verified: Option<bool>,
    pub family_name: Option<String>,
    pub given_name: Option<String>,
    pub preferred_username: Option<String>,
    pub name: Option<String>,
    pub nickname: Option<String>,
    pub picture: Option<String>,
    pub phone_number: Option<String>,
    pub phone_number_verified: Option<bool>,
}

/// The claims of the ID token that `issuer` gives `user` for the client
/// `client_id` at time `now`: the subject is the user id, it expires after the
/// fixed lifetime, and each identity claim is present exactly when the user
/// has the matching field.
pub fn id_token_claims(user: &User, client_id: &String, issuer: &str, now: i64) -> (r: IdTokenClaims)
    requires
        now <= i64::MAX - ID_TOKEN_LIFETIME,
    ensures
        r.issuer@ == issuer@,
        r.audience == *client_id,
        r.subject == user.id,
        r.issued_at == now,
        r.expiration == now + ID_TOKEN_LIFETIME,
        r.email == user.email,
        r.email_verified == user.email_verified,
        r.family_name == user.family_name,
        r.given_name == user.given_name,
        r.preferred_username == user.username,
        r.name == user.name,
        r.nickname == user.nickname,
        r.picture == user.picture,
        r.phone_number == user.phone_number,
        r.phone_number_verified == user.phone_verified,
{
    IdTokenClaims {
        issuer: String::from_str(issuer),
        audience: client_id.clone(),
        subject: user.id.clone(),
        issued_at: now,
        expiration: now + ID_TOKEN_LIFETIME,
        email: crate::users::clone_opt(&user.email),
        email_verified: user.email_verified,
        family_name: crate::users::clone_opt(&user.family_name),
        given_name: crate::users::clone_opt(&user.given_name),
        preferred_username: crate::users::clone_opt(&user.username),
        name: crate::users::clone_opt(&user.name),
        nickname: crate::users::clone_opt(&user.nickname),
        picture: crate::users::clone_opt(&user.picture),
        phone_number: crate::users::clone_opt(&user.phone_number),
        phone_number_verified: user.phone_verified,
    }
}

/// The standard claims (subject, contact and user name) of `c`, as
/// openidconnect serializes them.
pub uninterp spec fn contact_claims_of(c: IdTokenClaims) -> Option<Seq<char>>;

/// The standard claims serialized in `json` with the localizable name and
/// picture claims of `c` added, as openidconnect serializes them.
pub uninterp spec fn name_claims_of(json: Seq<char>, c: IdTokenClaims) -> Option<Seq<char>>;

/// The ID token claims made of the standard claims in `json` and the
/// issuer, audience, expiry and issue time of `c`, as openidconnect
/// serializes them.
pub uninterp spec fn token_claims_of(json: Seq<char>, c: IdTokenClaims) -> Option<Seq<char>>;

/// The compact serialization of the ID token with the claims in `json`,
/// signed RS256 with the PKCS#1 PEM key `pem` under the key id `kid`,
/// carrying the hashes of `access_token` and `code`.
pub uninterp spec fn signed_id_token_of(
    json: Seq<char>,
    pem: Seq<char>,
    kid: Seq<char>,
    access_token: Seq<char>,
    code: Seq<char>,
) -> Option<Seq<char>>;

/// The ID token for the claims `c`, signed with the key `pem` under `kid`.
pub open spec fn id_token_of(
    c: IdTokenClaims,
    pem: Seq<char>,
    kid: Seq<char>,
    access_token: Seq<char>,
    code: Seq<char>,
) -> Option<Seq<char>> {
    match contact_claims_of(c) {
        None => None,
        Some(contact) => match name_claims_of(contact, c) {
            None => None,
            Some(standard) => match token_claims_of(standard, c) {
                None => None,
                Some(all) => signed_id_token_of(all, pem, kid, access_token, code),
            },
        },
    }
}

/// Relies on openidconnect's `StandardClaims::new` and its setters for the
/// subject, e-mail, phone and user-name claims (a `None` field stays unset),
/// written with its `Serialize` impl through `serde_json::to_string`.
#[verifier::external_body]
fn contact_claims(c: &IdTokenClaims) -> (r: Option<String>)
    ensures
        crate::opt_view(r) == contact_claims_of(*c),
{
    let s = StandardClaims::<openidconnect::core::CoreGenderClaim>::new(SubjectIdentifier::new(c.subject.clone()))
        .set_email(c.email.clone().map(EndUserEmail::new))
        .set_email_verified(c.email_verified)
        .set_phone_number(c.phone_number.clone().map(EndUserPhoneNumber::new))
        .set_phone_number_verified(c.phone_number_verified)
        .set_preferred_username(c.preferred_username.clone().map(EndUserUsername::new));
    serde_json::to_string(&s).ok()
}

/// Relies on openidconnect's `StandardClaims` read back with its
/// `Deserialize` impl, its setters for the localizable family name, given
/// name, name, nickname and picture claims (a `None` field stays unset), and
/// its `Serialize` impl, through serde_json.
#[verifier::external_body]
fn with_name_claims(json: &String, c: &IdTokenClaims) -> (r: Option<String>)
    ensures
        crate::opt_view(r) == name_claims_of(json@, *c),
{
    let s: StandardClaims<openidconnect::core::CoreGenderClaim> = serde_json::from_str(json).ok()?;
    let s = s.set_family_name(c.family_name.clone().map(EndUserFamilyName::new).map(Into::into))
        .set_given_name(c.given_name.clone().map(EndUserGivenName::new).map(Into::into))
        .set_name(c.name.clone().map(EndUserName::new).map(Into::into))
        .set_nickname(c.nickname.clone().map(EndUserNickname::new).map(Into::into))
        .set_picture(c.picture.clone().map(EndUserPictureUrl::new).map(Into::into));
    serde_json::to_string(&s).ok()
}

/// Relies on openidconnect's `IdTokenClaims::new` over the standard claims
/// read back with their `Deserialize` impl, with one audience, and on its
/// `Serialize` impl, through serde_json. `None` when the claims or the issuer
/// cannot be read or a time is out of range.
#[verifier::external_body]
fn token_claims(json: &String, c: &IdTokenClaims) -> (r: Option<String>)
    ensures
        crate::opt_view(r) == token_claims_of(json@, *c),
{
    let claims = openidconnect::core::CoreIdTokenClaims::new(
        IssuerUrl::new(c.issuer.clone()).ok()?,
        vec![Audience::new(c.audience.clone())],
        chrono::TimeZone::timestamp_opt(&chrono::Utc, c.expiration, 0).single()?,
        chrono::TimeZone::timestamp_opt(&chrono::Utc, c.issued_at, 0).single()?,
        serde_json::from_str(json).ok()?,
        EmptyAdditionalClaims {},
    );
    serde_json::to_string(&claims).ok()
}

/// Relies on openidconnect's `CoreRsaPrivateSigningKey::from_pem` and
/// `IdToken::new` over the claims read back with their `Deserialize` impl:
/// signs them with RS256 (PKCS#1 v1.5, deterministic) under the key id,
/// adding the hashes of the access token and of the code, and gives the
/// compact serialization. `None` when the key or the claims cannot be read or
/// signing fails.
#[verifier::external_body]
fn sign_id_token(json: &String, pem: &Pem, access_token: &String, code: &String) -> (r: Option<String>)
    ensures
        crate::opt_view(r) == signed_id_token_of(json@, pem.pem@, pem.kid@, access_token@, code@),
{
    let key = openidconnect::core::CoreRsaPrivateSigningKey::from_pem(&pem.pem, Some(JsonWebKeyId::new(pem.kid.clone()))).ok()?;
    let claims: openidconnect::core::CoreIdTokenClaims = serde_json::from_str(json).ok()?;
    let alg = openidconnect::core::CoreJwsSigningAlgorithm::RsaSsaPkcs1V15Sha256;
    let (at, code) = (AccessToken::new(access_token.clone()), AuthorizationCode::new(code.clone()));
    openidconnect::core::CoreIdToken::new(claims, &key, alg, Some(&at), Some(&code)).ok().map(|t| t.to_string())
}

/// Whether a key slot holds a key that openidconnect can sign with.
pub open spec fn readable_signing_key(current: Option<Pem>) -> bool {
    current matches Some(p) && is_signing_pem(p.pem@)
}

/// Signs an ID token for `claims` with the current key under its key id,
/// binding it to an access token and an authorization code. `MissingKeys`
/// when there is no current key or it cannot be read; otherwise the signed
/// token, or `Jwt` when signing fails. The key of a signed token is one
/// whose public half the key set publishes under the same key id.
pub fn id_token(
    current: &Option<Pem>,
    claims: &IdTokenClaims,
    access_token: &String,
    code: &String,
) -> (r: Result<String, crate::error::Error>)
    ensures
        !readable_signing_key(*current) ==> r matches Err(crate::error::Error::MissingKeys),
        readable_signing_key(*current) ==> match id_token_of(
            *claims,
            current->Some_0.pem@,
            current->Some_0.kid@,
            access_token@,
            code@,
        ) {
            Some(t) => r matches Ok(x) && x@ == t,
            None => r matches Err(crate::error::Error::Jwt),
        },
        r is Ok ==> crate::keys::published_kid(*current) == Some(current->Some_0.kid@),
{
    let pem = match current {
        Some(p) => p,
        None => {
            return Err(crate::error::Error::MissingKeys);
        },
    };
    if !is_readable_signing_key(pem) {
        return Err(crate::error::Error::MissingKeys);
    }
    let contact = match contact_claims(claims) {
        Some(j) => j,
        None => {
            return Err(crate::error::Error::Jwt);
        },
    };
    let all = match with_name_claims(&contact, claims) {
        Some(j) => j,
        None => {
            return Err(crate::error::Error::Jwt);
        },
    };
    let full = match token_claims(&all, claims) {
        Some(j) => j,
        None => {
            return Err(crate::error::Error::Jwt);
        },
    };
    match sign_id_token(&full, pem, access_token, code) {
        Some(t) => Ok(t),
        None => Err(crate::error::Error::Jwt),
    }
}

} // verus!
