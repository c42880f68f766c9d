//! The `/users` endpoint: a bearer of a local access token that was granted
//! the right scope reads the provider tokens stored for its user.
use vstd::prelude::*;

use crate::error::Error;
use crate::scopes::{contains_scope, views};
use crate::states::{ConnectionTokens, TokenMetadata};

verus! {

/// The scope that grants reading the provider tokens of one's own user.
pub const READ_IDP_TOKENS_SCOPE: &'static str = "read:user_idp_tokens";

/// The user whose provider tokens the bearer may read, given what is stored
/// under its access token: `InvalidAccessToken` for an unknown or expired
/// token, `MissingPermission` when the token lacks the scope.
pub fn user_tokens_owner(meta: &Option<TokenMetadata>) -> (r: Result<String, Error>)
    ensures
        match *meta {
            None => r matches Err(Error::InvalidAccessToken),
            Some(m) => if views(m.scopes@).contains(READ_IDP_TOKENS_SCOPE@) {
                r == Ok::<String, Error>(m.client_id)
            } else {
                r matches Err(Error::MissingPermission)
            },
        },
{
    match meta {
        None => Err(Error::InvalidAccessToken),
        Some(m) => {
            if contains_scope(&m.scopes, &String::from_str(READ_IDP_TOKENS_SCOPE)) {
                Ok(m.client_id.clone())
            } else {
                Err(Error::MissingPermission)
            }
        },
    }
}

/// The stored provider tokens, or `TokensNotFound`.
pub fn found_tokens(tokens: Option<ConnectionTokens>) -> (r: Result<ConnectionTokens, Error>)
    ensures
        match tokens {
            Some(t) => r == Ok::<ConnectionTokens, Error>(t),
            None => r matches Err(Error::TokensNotFound),
        },
{
    match tokens {
        Some(t) => Ok(t),
        None => Err(Error::TokensNotFound),
    }
}

} // verus!
