//! The token endpoint: an authorization code is exchanged for the token
//! response prepared at callback time.
use vstd::prelude::*;

use crate::error::{is_oauth_error, Error, OAuthErrorCode};
use crate::states::{equals, CodeFlowState, TokenReply};

verus! {

/// A request to the token endpoint, as its form fields.
#[derive(Clone, Debug)]
pub struct TokenRequest {
    pub grant_type: String,
    pub client_id: String,
    pub client_secret: String,
    pub code: String,
    pub redirect_uri: String,
}

/// Whether the client credentials of a request match the stored secret of the
/// application with that client id (`None`: no such application).
pub open spec fn creds_valid(stored_secret: Option<String>, client_secret: Seq<char>) -> bool {
    match stored_secret {
        Some(s) => s@ == client_secret,
        None => false,
    }
}

/// Why the token endpoint refuses a request, if it does: the code and
/// description of the error, checked in this order.
pub open spec fn token_refusal(
    req: TokenRequest,
    stored_secret: Option<String>,
    flow: Option<CodeFlowState>,
) -> Option<(OAuthErrorCode, Seq<char>)> {
    if !creds_valid(stored_secret, req.client_secret@) {
        Some((OAuthErrorCode::InvalidClient, "invalid client credentials"@))
    } else if req.grant_type@ != "authorization_code"@ {
        Some((OAuthErrorCode::UnsupportedGrantType, "expected grant_type authorization_code"@))
    } else {
        match flow {
            None => Some((OAuthErrorCode::InvalidGrant, "invalid code"@)),
            Some(f) => if req.client_id@ != f.client_id@ {
                Some((OAuthErrorCode::InvalidGrant, "client_id does not belong to this flow"@))
            } else if req.redirect_uri@ != f.redirect_uri@ {
                Some((OAuthErrorCode::InvalidGrant, "redirect_uri does not belong to this flow"@))
            } else {
                None
            },
        }
    }
}

/// Checks client credentials against the stored secret of the application
/// (`None` when no application has the client id).
pub fn verify_client_creds(stored_secret: &Option<String>, client_secret: &String) -> (r: bool)
    ensures
        r == creds_valid(*stored_secret, client_secret@),
{
    match stored_secret {
        Some(s) => *s == *client_secret,
        None => false,
    }
}

fn oauth_error(c: OAuthErrorCode, d: &str) -> (e: Error)
    ensures
        is_oauth_error(e, c, d@),
{
    Error::OAuth2(c, String::from_str(d))
}

/// Answers the token endpoint.
///
/// `stored_secret` is the secret of the application registered under the
/// request's client id, `flow` what is stored under the request's code. The
/// prepared response is handed out only to the client and redirect URI that
/// the code was issued for.
pub fn oauth_token(
    req: &TokenRequest,
    stored_secret: &Option<String>,
    flow: Option<CodeFlowState>,
) -> (r: Result<TokenReply, Error>)
    ensures
        match token_refusal(*req, *stored_secret, flow) {
            Some((c, d)) => r is Err && is_oauth_error(r->Err_0, c, d),
            None => r == Ok::<TokenReply, Error>(flow->Some_0.reply),
        },
{
    if !verify_client_creds(stored_secret, &req.client_secret) {
        return Err(oauth_error(OAuthErrorCode::InvalidClient, "invalid client credentials"));
    }
    if !equals(&req.grant_type, "authorization_code") {
        return Err(
            oauth_error(
                OAuthErrorCode::UnsupportedGrantType,
                "expected grant_type authorization_code",
            ),
        );
    }
    let flow = match flow {
        Some(f) => f,
        None => {
            return Err(oauth_error(OAuthErrorCode::InvalidGrant, "invalid code"));
        },
    };
    if req.client_id != flow.client_id {
        return Err(
            oauth_error(OAuthErrorCode::InvalidGrant, "client_id does not belong to this flow"),
        );
    }
    if req.redirect_uri != flow.redirect_uri {
        return Err(
            oauth_error(OAuthErrorCode::InvalidGrant, "redirect_uri does not belong to this flow"),
        );
    }
    Ok(flow.reply)
}

/// A code is honoured only for the client and redirect URI it was issued to:
/// exchanging it with another client id or redirect URI fails with
/// `invalid_grant`, even with valid client credentials.
pub proof fn lemma_code_bound_to_client(
    req: TokenRequest,
    stored_secret: Option<String>,
    flow: CodeFlowState,
)
    requires
        creds_valid(stored_secret, req.client_secret@),
        req.grant_type@ == "authorization_code"@,
        req.client_id@ != flow.client_id@ || req.redirect_uri@ != flow.redirect_uri@,
    ensures
        token_refusal(req, stored_secret, Some(flow)) matches Some((c, _)) && c
            == OAuthErrorCode::InvalidGrant,
{
}

} // verus!
