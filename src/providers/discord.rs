//! Discord: the profile of its API, mapped into a user.
use vstd::prelude::*;

use crate::users::{clone_opt, User};

verus! {

/// The fields of Discord's `/users/@me` answer that the server reads.
#[derive(Clone, Debug)]
pub struct DiscordProfile {
    pub id: String,
    pub username: String,
    pub avatar: Option<String>,
    pub verified: Option<bool>,
    pub email: Option<String>,
}

/// Whether an avatar hash names an animated avatar (it starts with `a_`).
pub open spec fn is_animated(avatar: Seq<char>) -> bool {
    avatar.len() >= 2 && avatar[0] == 'a' && avatar[1] == '_'
}

/// The CDN address of a user's avatar.
pub open spec fn avatar_url_of(user_id: Seq<char>, avatar: Seq<char>) -> Seq<char> {
    "https://cdn.discordapp.com/avatars/"@ + user_id + "/"@ + avatar + "."@ + if is_animated(
        avatar,
    ) {
        "gif"@
    } else {
        "png"@
    }
}

/// The CDN address of a user's avatar: a GIF for an animated one, else a PNG.
pub fn avatar_url(user_id: &String, avatar: &String) -> (r: String)
    ensures
        r@ == avatar_url_of(user_id@, avatar@),
{
    let a = avatar.as_str();
    let animated = a.unicode_len() >= 2 && a.get_char(0) == 'a' && a.get_char(1) == '_';
    let ext = if animated {
        "gif"
    } else {
        "png"
    };
    String::from_str("https://cdn.discordapp.com/avatars/").concat(user_id.as_str()).concat(
        "/",
    ).concat(a).concat(".").concat(ext)
}

/// The user described by a Discord profile; the id is Discord's id, not yet
/// prefixed with the provider.
pub fn discord_user(profile: &DiscordProfile) -> (r: User)
    ensures
        r.id == profile.id,
        r.username == Some(profile.username),
        match profile.avatar {
            Some(a) => r.picture matches Some(p) && p@ == avatar_url_of(profile.id@, a@),
            None => r.picture is None,
        },
        r.email == profile.email,
        r.email_verified == profile.verified,
        r.name is None && r.family_name is None && r.given_name is None,
        r.phone_number is None && r.phone_verified is None,
        r.nickname is None && r.created_at is None && r.updated_at is None,
        crate::users::is_bookkeeping_blank(r),
{
    let mut u = User::default_with_id(profile.id.clone());
    u.username = Some(profile.username.clone());
    u.picture = match &profile.avatar {
        Some(a) => Some(avatar_url(&profile.id, a)),
        None => None,
    };
    u.email = clone_opt(&profile.email);
    u.email_verified = profile.verified;
    u
}

} // verus!
