//! Identity providers: how each is configured, the registry that maps a
//! provider id to its configuration, and how provider profiles become users.
use vstd::prelude::*;

use crate::error::Error;
use crate::users::{user_id_of, User};

pub mod discord;
pub mod github;

verus! {

/// A plain OAuth 2.0 provider: fixed endpoints and the scopes asked of it.
#[derive(Clone, Debug)]
pub struct OAuth2Provider {
    pub auth_url: String,
    pub token_url: String,
    pub scopes: Vec<String>,
}

/// An OpenID Connect provider, whose endpoints are discovered from its issuer.
#[derive(Clone, Debug)]
pub struct OidcProvider {
    pub issuer_url: String,
    pub scopes: Vec<String>,
}

#[derive(Clone, Debug)]
pub enum Provider {
    OAuth2(OAuth2Provider),
    Oidc(OidcProvider),
}

/// The configured providers, each under its id.
#[derive(Clone, Debug)]
pub struct ProviderRegistry {
    pub entries: Vec<(String, Provider)>,
}

/// The first entry of `entries` with id `name`.
pub open spec fn lookup(entries: Seq<(String, Provider)>, name: Seq<char>) -> Option<Provider>
    decreases entries.len(),
{
    if entries.len() == 0 {
        None
    } else if entries[0].0@ == name {
        Some(entries[0].1)
    } else {
        lookup(entries.drop_first(), name)
    }
}

/// Whether two provider configurations are equal, field by field.
pub open spec fn same_provider(a: Provider, b: Provider) -> bool {
    match (a, b) {
        (Provider::OAuth2(x), Provider::OAuth2(y)) => x.auth_url@ == y.auth_url@
            && x.token_url@ == y.token_url@ && x.scopes@ == y.scopes@,
        (Provider::Oidc(x), Provider::Oidc(y)) => x.issuer_url@ == y.issuer_url@ && x.scopes@
            == y.scopes@,
        _ => false,
    }
}

impl ProviderRegistry {
    /// The provider configured under `name`; `InvalidConnection` when there is
    /// none.
    pub fn get_provider(&self, name: &String) -> (r: Result<Provider, Error>)
        ensures
            match lookup(self.entries@, name@) {
                Some(p) => r matches Ok(q) && same_provider(q, p),
                None => r matches Err(Error::InvalidConnection),
            },
    {
        let mut i: usize = 0;
        assert(self.entries@.skip(0) =~= self.entries@);
        while i < self.entries.len()
            invariant
                i <= self.entries.len(),
                lookup(self.entries@, name@) == lookup(self.entries@.skip(i as int), name@),
            decreases self.entries.len() - i,
        {
            assert(self.entries@.skip(i as int).drop_first() =~= self.entries@.skip(i as int + 1));
            if self.entries[i].0 == *name {
                return Ok(self.entries[i].1.clone_provider());
            }
            i += 1;
        }
        Err(Error::InvalidConnection)
    }
}

pub fn clone_strings(v: &Vec<String>) -> (r: Vec<String>)
    ensures
        r@ == v@,
{
    let mut r: Vec<String> = Vec::new();
    let mut i: usize = 0;
    assert(v@.take(0) =~= Seq::<String>::empty());
    while i < v.len()
        invariant
            i <= v.len(),
            r@ == v@.take(i as int),
        decreases v.len() - i,
    {
        r.push(v[i].clone());
        assert(r@ =~= v@.take(i as int + 1));
        i += 1;
    }
    assert(v@.take(v.len() as int) =~= v@);
    r
}

impl Provider {
    /// A copy of this configuration.
    pub fn clone_provider(&self) -> (r: Provider)
        ensures
            same_provider(r, *self),
    {
        match self {
            Provider::OAuth2(p) => Provider::OAuth2(
                OAuth2Provider {
                    auth_url: p.auth_url.clone(),
                    token_url: p.token_url.clone(),
                    scopes: clone_strings(&p.scopes),
                },
            ),
            Provider::Oidc(p) => Provider::Oidc(
                OidcProvider { issuer_url: p.issuer_url.clone(), scopes: clone_strings(&p.scopes) },
            ),
        }
    }
}

/// The user that a provider adapter produced, with its id prefixed by the
/// provider id so that ids of different providers never collide.
pub fn prefix_user_id(provider: &str, user: User) -> (r: User)
    ensures
        r.id@ == user_id_of(provider@, user.id@),
        r == (User { id: r.id, ..user }),
{
    let mut user = user;
    user.id = crate::users::user_id(provider, &user.id);
    user
}

/// The providers whose profile API the server knows how to read.
#[derive(Clone, Copy, Debug, PartialEq, Eq, Structural)]
pub enum ProfileAdapter {
    GitHub,
    Discord,
}

/// The profile adapter of a plain OAuth 2.0 provider; `InvalidConnection` for
/// a provider without one.
pub fn profile_adapter(provider: &String) -> (r: Result<ProfileAdapter, Error>)
    ensures
        provider@ == "github"@ ==> r == Ok::<ProfileAdapter, Error>(ProfileAdapter::GitHub),
        provider@ == "discord"@ ==> r == Ok::<ProfileAdapter, Error>(ProfileAdapter::Discord),
        provider@ != "github"@ && provider@ != "discord"@ ==> r matches Err(
            Error::InvalidConnection,
        ),
{
    proof {
        reveal_strlit("github");
        reveal_strlit("discord");
        assert("github"@.len() != "discord"@.len());
    }
    if crate::states::equals(provider, "github") {
        Ok(ProfileAdapter::GitHub)
    } else if crate::states::equals(provider, "discord") {
        Ok(ProfileAdapter::Discord)
    } else {
        Err(Error::InvalidConnection)
    }
}

} // verus!
