//! An OAuth 2.0 / OpenID Connect authorization server that federates login to
//! external identity providers and issues its own tokens.
//!
//! The library holds the protocol logic: scope validation, the
//! authorize → callback → token state machine, local token issuance and the
//! rotation of signing keys. Stores, HTTP and timers are driven by the caller,
//! which hands the library plain values and performs the actions it returns.
use vstd::prelude::*;

pub mod application;
pub mod authorize;
pub mod callback;
pub mod connector;
pub mod error;
pub mod keys;
pub mod providers;
pub mod scopes;
pub mod states;
pub mod token;
pub mod tokens;
pub mod user_tokens;
pub mod users;

verus! {

/// Whether `c` is an ASCII letter or digit.
pub open spec fn is_alphanumeric(c: char) -> bool {
    ('a' <= c && c <= 'z') || ('A' <= c && c <= 'Z') || ('0' <= c && c <= '9')
}

/// Whether every character of `s` is an ASCII letter or digit.
pub open spec fn all_alphanumeric(s: Seq<char>) -> bool {
    forall|i: int| 0 <= i < s.len() ==> is_alphanumeric(#[trigger] s[i])
}

/// The view of an optional string.
pub open spec fn opt_view(o: Option<String>) -> Option<Seq<char>> {
    match o {
        Some(s) => Some(s@),
        None => None,
    }
}

/// A fresh random string of `len` ASCII letters and digits.
///
/// Relies on rand's `Alphanumeric` distribution sampled from the thread-local
/// generator: it yields exactly `len` characters, each from `A-Z`, `a-z`, `0-9`.
#[verifier::external_body]
pub fn gen_string(len: usize) -> (r: String)
    ensures
        r@.len() == len,
        all_alphanumeric(r@),
{
    rand::distributions::DistString::sample_string(
        &rand::distributions::Alphanumeric,
        &mut rand::thread_rng(),
        len,
    )
}

} // verus!
