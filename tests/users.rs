use auth_worker::error::Error;
use auth_worker::providers::{profile_adapter, ProfileAdapter};
use auth_worker::providers::discord::{avatar_url, discord_user, DiscordProfile};
use auth_worker::providers::github::{github_user, to_decimal, GitHubEmail, GitHubProfile};
use auth_worker::providers::prefix_user_id;
use auth_worker::users::{upsert_user, user_id, SqlValue, User, UserInfoClaims};
use std::collections::HashMap;

fn profile(id: u64, name: Option<&str>) -> GitHubProfile {
    GitHubProfile {
        login: "octocat".to_string(),
        id,
        avatar_url: "https://avatars.example/u/42".to_string(),
        name: name.map(|s| s.to_string()),
        created_at: "2011-01-25T18:44:36Z".to_string(),
        updated_at: "2024-01-01T00:00:00Z".to_string(),
    }
}

fn email(address: &str, verified: bool, primary: bool) -> GitHubEmail {
    GitHubEmail { email: address.to_string(), verified, primary }
}

#[test]
fn github_user_id_is_prefixed() {
    let user = prefix_user_id("github", github_user(&profile(42, None), &vec![]));
    assert_eq!(user.id, "github|42");
    assert_eq!(user.username.as_deref(), Some("octocat"));
    assert!(user.email.is_none());
}

#[test]
fn github_prefers_primary_email() {
    let emails = vec![email("a@example.com", false, false), email("b@example.com", true, true)];
    let user = github_user(&profile(7, Some("Octo")), &emails);
    assert_eq!(user.email.as_deref(), Some("b@example.com"));
    assert_eq!(user.email_verified, Some(true));
    assert_eq!(user.name.as_deref(), Some("Octo"));
    let emails = vec![email("a@example.com", false, false), email("c@example.com", true, false)];
    let user = github_user(&profile(7, None), &emails);
    assert_eq!(user.email.as_deref(), Some("a@example.com"));
    assert_eq!(user.email_verified, Some(false));
}

#[test]
fn decimal_ids() {
    assert_eq!(to_decimal(0), "0");
    assert_eq!(to_decimal(42), "42");
    assert_eq!(to_decimal(u64::MAX), "18446744073709551615");
}

#[test]
fn discord_avatar_extension() {
    assert_eq!(
        avatar_url(&"1".to_string(), &"a_abc".to_string()),
        "https://cdn.discordapp.com/avatars/1/a_abc.gif"
    );
    assert_eq!(
        avatar_url(&"1".to_string(), &"abc".to_string()),
        "https://cdn.discordapp.com/avatars/1/abc.png"
    );
    let user = discord_user(&DiscordProfile {
        id: "99".to_string(),
        username: "wumpus".to_string(),
        avatar: None,
        verified: Some(true),
        email: Some("w@example.com".to_string()),
    });
    assert_eq!(prefix_user_id("discord", user.clone()).id, "discord|99");
    assert!(user.picture.is_none());
    assert_eq!(user.email_verified, Some(true));
}

#[test]
fn user_from_claims() {
    let claims = UserInfoClaims {
        subject: "abc".to_string(),
        email: Some("e@example.com".to_string()),
        email_verified: Some(false),
        family_name: None,
        given_name: Some("Ada".to_string()),
        preferred_username: None,
        name: None,
        nickname: None,
        picture: None,
        phone_number: Some("+1".to_string()),
        phone_number_verified: None,
    };
    let user = User::from_claims("google", &claims);
    assert_eq!(user.id, "google|abc");
    assert_eq!(user.given_name.as_deref(), Some("Ada"));
    assert_eq!(user.phone_number.as_deref(), Some("+1"));
    assert_eq!(user_id("google", &"abc".to_string()), "google|abc");
}

#[test]
fn default_user_has_only_an_id() {
    let user = User::default_with_id("x|1".to_string());
    assert_eq!(user.id, "x|1");
    assert!(user.email.is_none() && user.picture.is_none() && user.identities.is_empty());
}

fn key_of(v: &SqlValue) -> String {
    match v {
        SqlValue::Text(s) => s.clone(),
        _ => panic!("the id is text"),
    }
}

fn render(v: &[SqlValue]) -> Vec<String> {
    v.iter()
        .map(|x| match x {
            SqlValue::Null => "NULL".to_string(),
            SqlValue::Text(s) => format!("'{s}'"),
            SqlValue::Integer(i) => i.to_string(),
        })
        .collect()
}

#[test]
fn upsert_twice_keeps_one_row_with_second_write() {
    let mut first = User::default_with_id("github|42".to_string());
    first.email = Some("old@example.com".to_string());
    first.email_verified = Some(false);
    let mut second = User::default_with_id("github|42".to_string());
    second.email = Some("new@example.com".to_string());
    second.email_verified = Some(true);
    let mut table: HashMap<String, Vec<String>> = HashMap::new();
    for u in [&first, &second] {
        let row = upsert_user(u);
        assert_eq!(row.len(), 19);
        table.insert(key_of(&row[0]), render(&row));
    }
    assert_eq!(table.len(), 1);
    let row = &table["github|42"];
    assert_eq!(row[1], "'new@example.com'");
    assert_eq!(row[2], "1");
    assert_eq!(row[3], "NULL");
}

#[test]
fn profile_adapters_by_provider_id() {
    assert_eq!(profile_adapter(&"github".to_string()).unwrap(), ProfileAdapter::GitHub);
    assert_eq!(profile_adapter(&"discord".to_string()).unwrap(), ProfileAdapter::Discord);
    assert!(matches!(profile_adapter(&"gitlab".to_string()), Err(Error::InvalidConnection)));
}
