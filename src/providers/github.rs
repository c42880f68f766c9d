//! GitHub: the profile and e-mail list of its API, mapped into a user.
use vstd::prelude::*;

use crate::users::{clone_opt, User};

verus! {

/// The fields of GitHub's `/user` answer that the server reads.
#[derive(Clone, Debug)]
pub struct GitHubProfile {
    pub login: String,
    pub id: u64,
    pub avatar_url: String,
    pub name: Option<String>,
    pub created_at: String,
    pub updated_at: String,
}

/// One entry of GitHub's `/user/emails` answer.
#[derive(Clone, Debug)]
pub struct GitHubEmail {
    pub email: String,
    pub verified: bool,
    pub primary: bool,
}

/// The decimal digits of `n`.
pub open spec fn decimal(n: nat) -> Seq<char>
    decreases n,
{
    if n < 10 {
        seq![digit_char(n)]
    } else {
        decimal(n / 10).push(digit_char(n % 10))
    }
}

pub open spec fn digit_char(d: nat) -> char {
    if d == 0 { '0' }
    else if d == 1 { '1' }
    else if d == 2 { '2' }
    else if d == 3 { '3' }
    else if d == 4 { '4' }
    else if d == 5 { '5' }
    else if d == 6 { '6' }
    else if d == 7 { '7' }
    else if d == 8 { '8' }
    else { '9' }
}

fn digit(d: u64) -> (r: &'static str)
    requires
        d < 10,
    ensures
        r@ == seq![digit_char(d as nat)],
{
    proof {
        reveal_strlit("0");
        reveal_strlit("1");
        reveal_strlit("2");
        reveal_strlit("3");
        reveal_strlit("4");
        reveal_strlit("5");
        reveal_strlit("6");
        reveal_strlit("7");
        reveal_strlit("8");
        reveal_strlit("9");
    }
    if d == 0 { "0" }
    else if d == 1 { "1" }
    else if d == 2 { "2" }
    else if d == 3 { "3" }
    else if d == 4 { "4" }
    else if d == 5 { "5" }
    else if d == 6 { "6" }
    else if d == 7 { "7" }
    else if d == 8 { "8" }
    else { "9" }
}

/// `n` written in decimal.
pub fn to_decimal(n: u64) -> (r: String)
    ensures
        r@ == decimal(n as nat),
    decreases n,
{
    if n < 10 {
        String::from_str(digit(n))
    } else {
        let s = to_decimal(n / 10);
        s.concat(digit(n % 10))
    }
}

/// The first primary address of the list.
pub open spec fn first_primary(emails: Seq<GitHubEmail>) -> Option<GitHubEmail>
    decreases emails.len(),
{
    if emails.len() == 0 {
        None
    } else if emails[0].primary {
        Some(emails[0])
    } else {
        first_primary(emails.drop_first())
    }
}

/// The address a user is known by: the first primary one, or else the first.
pub open spec fn chosen_email(emails: Seq<GitHubEmail>) -> Option<GitHubEmail> {
    match first_primary(emails) {
        Some(e) => Some(e),
        None => if emails.len() > 0 {
            Some(emails[0])
        } else {
            None
        },
    }
}

fn choose_email(emails: &Vec<GitHubEmail>) -> (r: Option<usize>)
    ensures
        match r {
            Some(i) => i < emails@.len() && chosen_email(emails@) == Some(emails@[i as int]),
            None => chosen_email(emails@) is None,
        },
{
    let mut i: usize = 0;
    assert(emails@.skip(0) =~= emails@);
    while i < emails.len()
        invariant
            i <= emails.len(),
            first_primary(emails@) == first_primary(emails@.skip(i as int)),
        decreases emails.len() - i,
    {
        assert(emails@.skip(i as int).drop_first() =~= emails@.skip(i as int + 1));
        if emails[i].primary {
            return Some(i);
        }
        i += 1;
    }
    if emails.len() > 0 {
        Some(0)
    } else {
        None
    }
}

/// The user described by a GitHub profile and its e-mail addresses; the id is
/// GitHub's numeric id, not yet prefixed with the provider.
pub fn github_user(profile: &GitHubProfile, emails: &Vec<GitHubEmail>) -> (r: User)
    ensures
        r.id@ == decimal(profile.id as nat),
        r.username == Some(profile.login),
        r.picture == Some(profile.avatar_url),
        r.name == profile.name,
        r.created_at == Some(profile.created_at),
        r.updated_at == Some(profile.updated_at),
        match chosen_email(emails@) {
            Some(e) => r.email == Some(e.email) && r.email_verified == Some(e.verified),
            None => r.email is None && r.email_verified is None,
        },
        r.family_name is None && r.given_name is None && r.nickname is None,
        r.phone_number is None && r.phone_verified is None,
        crate::users::is_bookkeeping_blank(r),
{
    let mut u = User::default_with_id(to_decimal(profile.id));
    u.username = Some(profile.login.clone());
    u.picture = Some(profile.avatar_url.clone());
    u.name = clone_opt(&profile.name);
    u.created_at = Some(profile.created_at.clone());
    u.updated_at = Some(profile.updated_at.clone());
    match choose_email(emails) {
        Some(i) => {
            u.email = Some(emails[i].email.clone());
            u.email_verified = Some(emails[i].verified);
        },
        None => {},
    }
    u
}

} // verus!
