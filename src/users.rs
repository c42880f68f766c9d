//! Users: the normalized profile that every provider maps into, and how it is
//! written to the users table.
use vstd::prelude::*;

verus! {

/// A user as the server stores it. `id` is `<provider>|<external id>`.
#[derive(Clone, Debug)]
pub struct User {
    pub id: String,
    pub email: Option<String>,
    pub email_verified: Option<bool>,
    pub family_name: Option<String>,
    pub given_name: Option<String>,
    pub username: Option<String>,
    pub name: Option<String>,
    pub nickname: Option<String>,
    pub picture: Option<String>,
    pub created_at: Option<String>,
    pub updated_at: Option<String>,
    pub blocked: Option<bool>,
    pub identities: Vec<()>,
    pub last_ip: Option<String>,
    pub last_login: Option<String>,
    pub last_password_reset: Option<String>,
    pub logins_count: Option<u64>,
    pub multifactor: Option<String>,
    pub phone_number: Option<String>,
    pub phone_verified: Option<bool>,
}

/// Whether every field of `u` but the id is absent or empty.
pub open spec fn is_blank(u: User) -> bool {
    &&& u.email is None
    &&& u.email_verified is None
    &&& u.family_name is None
    &&& u.given_name is None
    &&& u.username is None
    &&& u.name is None
    &&& u.nickname is None
    &&& u.picture is None
    &&& u.created_at is None
    &&& u.updated_at is None
    &&& u.blocked is None
    &&& u.identities@.len() == 0
    &&& u.last_ip is None
    &&& u.last_login is None
    &&& u.last_password_reset is None
    &&& u.logins_count is None
    &&& u.multifactor is None
    &&& u.phone_number is None
    &&& u.phone_verified is None
}

/// Whether the fields of `u` that no provider profile fills are absent or
/// empty.
pub open spec fn is_bookkeeping_blank(u: User) -> bool {
    &&& u.blocked is None
    &&& u.identities@.len() == 0
    &&& u.last_ip is None
    &&& u.last_login is None
    &&& u.last_password_reset is None
    &&& u.logins_count is None
    &&& u.multifactor is None
}

/// The identity claims of an OpenID Connect provider, as plain values.
#[derive(Clone, Debug)]
pub struct UserInfoClaims {
    pub subject: String,
    pub email: Option<String>,
    pub email_verified: Option<bool>,
    pub family_name: Option<String>,
    pub given_name: Option<String>,
    pub preferred_username: Option<String>,
    pub name: Option<String>,
    pub nickname: Option<String>,
    pub picture: Option<String>,
    pub phone_number: Option<String>,
    pub phone_number_verified: Option<bool>,
}

/// The id of a user known to `provider` as `external_id`.
pub open spec fn user_id_of(provider: Seq<char>, external_id: Seq<char>) -> Seq<char> {
    provider + "|"@ + external_id
}

/// The id of a user known to `provider` as `external_id`.
pub fn user_id(provider: &str, external_id: &String) -> (r: String)
    ensures
        r@ == user_id_of(provider@, external_id@),
{
    String::from_str(provider).concat("|").concat(external_id.as_str())
}

pub fn clone_opt(s: &Option<String>) -> (r: Option<String>)
    ensures
        r == *s,
{
    match s {
        Some(x) => Some(x.clone()),
        None => None,
    }
}

impl User {
    /// A user with the given id and no other data.
    pub fn default_with_id(id: String) -> (r: Self)
        ensures
            r.id == id,
            is_blank(r),
    {
        User {
            id,
            email: None,
            email_verified: None,
            family_name: None,
            given_name: None,
            username: None,
            name: None,
            nickname: None,
            picture: None,
            created_at: None,
            updated_at: None,
            blocked: None,
            identities: Vec::new(),
            last_ip: None,
            last_login: None,
            last_password_reset: None,
            logins_count: None,
            multifactor: None,
            phone_number: None,
            phone_verified: None,
        }
    }

    /// The user described by the verified claims of an OpenID Connect provider.
    pub fn from_claims(provider: &str, claims: &UserInfoClaims) -> (r: Self)
        ensures
            r.id@ == user_id_of(provider@, claims.subject@),
            r.email == claims.email,
            r.email_verified == claims.email_verified,
            r.family_name == claims.family_name,
            r.given_name == claims.given_name,
            r.username == claims.preferred_username,
            r.name == claims.name,
            r.nickname == claims.nickname,
            r.picture == claims.picture,
            r.phone_number == claims.phone_number,
            r.phone_verified == claims.phone_number_verified,
            r.created_at is None,
            r.updated_at is None,
            r.blocked is None,
            r.identities@.len() == 0,
            r.last_ip is None,
            r.last_login is None,
            r.last_password_reset is None,
            r.logins_count is None,
            r.multifactor is None,
    {
        let mut u = User::default_with_id(user_id(provider, &claims.subject));
        u.email = clone_opt(&claims.email);
        u.email_verified = claims.email_verified;
        u.family_name = clone_opt(&claims.family_name);
        u.given_name = clone_opt(&claims.given_name);
        u.username = clone_opt(&claims.preferred_username);
        u.name = clone_opt(&claims.name);
        u.nickname = clone_opt(&claims.nickname);
        u.picture = clone_opt(&claims.picture);
        u.phone_number = clone_opt(&claims.phone_number);
        u.phone_verified = claims.phone_number_verified;
        u
    }
}

/// A value bound to a parameter of a query.
#[derive(Clone, Debug)]
pub enum SqlValue {
    Null,
    Text(String),
    Integer(u64),
}

pub open spec fn text_of(s: Option<String>) -> SqlValue {
    match s {
        Some(t) => SqlValue::Text(t),
        None => SqlValue::Null,
    }
}

/// Booleans are stored as 0 or 1.
pub open spec fn flag_of(b: Option<bool>) -> SqlValue {
    match b {
        Some(true) => SqlValue::Integer(1),
        Some(false) => SqlValue::Integer(0),
        None => SqlValue::Null,
    }
}

pub open spec fn count_of(n: Option<u64>) -> SqlValue {
    match n {
        Some(v) => SqlValue::Integer(v),
        None => SqlValue::Null,
    }
}

/// The row of a user: its id and every column, in the order of the upsert
/// statement's parameters.
pub open spec fn row_of(u: User) -> Seq<SqlValue> {
    seq![
        SqlValue::Text(u.id),
        text_of(u.email),
        flag_of(u.email_verified),
        text_of(u.family_name),
        text_of(u.given_name),
        text_of(u.username),
        text_of(u.name),
        text_of(u.nickname),
        text_of(u.picture),
        text_of(u.created_at),
        text_of(u.updated_at),
        flag_of(u.blocked),
        text_of(u.last_ip),
        text_of(u.last_login),
        text_of(u.last_password_reset),
        count_of(u.logins_count),
        text_of(u.multifactor),
        text_of(u.phone_number),
        flag_of(u.phone_verified),
    ]
}

/// The statement that inserts a user, or on a conflict of ids overwrites
/// every column of the existing row.
pub const UPSERT_USER_SQL: &'static str = "INSERT INTO users (id, email, email_verified, family_name, given_name, username, name, nickname, picture, created_at, updated_at, blocked, last_ip, last_login, last_password_reset, logins_count, multifactor, phone_number, phone_verified) VALUES (?1, ?2, ?3, ?4, ?5, ?6, ?7, ?8, ?9, ?10, ?11, ?12, ?13, ?14, ?15, ?16, ?17, ?18, ?19) ON CONFLICT DO UPDATE SET email = excluded.email, email_verified = excluded.email_verified, family_name = excluded.family_name, given_name = excluded.given_name, username = excluded.username, name = excluded.name, nickname = excluded.nickname, picture = excluded.picture, created_at = excluded.created_at, updated_at = excluded.updated_at, blocked = excluded.blocked, last_ip = excluded.last_ip, last_login = excluded.last_login, last_password_reset = excluded.last_password_reset, logins_count = excluded.logins_count, multifactor = excluded.multifactor, phone_number = excluded.phone_number, phone_verified = excluded.phone_verified";

fn text(s: &Option<String>) -> (r: SqlValue)
    ensures
        r == text_of(*s),
{
    match s {
        Some(t) => SqlValue::Text(t.clone()),
        None => SqlValue::Null,
    }
}

fn flag(b: Option<bool>) -> (r: SqlValue)
    ensures
        r == flag_of(b),
{
    match b {
        Some(true) => SqlValue::Integer(1),
        Some(false) => SqlValue::Integer(0),
        None => SqlValue::Null,
    }
}

/// The parameters of the upsert statement for `user`.
pub fn upsert_user(user: &User) -> (r: Vec<SqlValue>)
    ensures
        r@ == row_of(*user),
{
    let mut r: Vec<SqlValue> = Vec::new();
    r.push(SqlValue::Text(user.id.clone()));
    r.push(text(&user.email));
    r.push(flag(user.email_verified));
    r.push(text(&user.family_name));
    r.push(text(&user.given_name));
    r.push(text(&user.username));
    r.push(text(&user.name));
    r.push(text(&user.nickname));
    r.push(text(&user.picture));
    r.push(text(&user.created_at));
    r.push(text(&user.updated_at));
    r.push(flag(user.blocked));
    r.push(text(&user.last_ip));
    r.push(text(&user.last_login));
    r.push(text(&user.last_password_reset));
    r.push(
        match user.logins_count {
            Some(v) => SqlValue::Integer(v),
            None => SqlValue::Null,
        },
    );
    r.push(text(&user.multifactor));
    r.push(text(&user.phone_number));
    r.push(flag(user.phone_verified));
    assert(r@ =~= row_of(*user));
    r
}

/// The users table after the upsert statement runs for `u`: rows are keyed by
/// id, and on a conflict every column is overwritten.
pub open spec fn upserted(rows: Map<Seq<char>, Seq<SqlValue>>, u: User) -> Map<
    Seq<char>,
    Seq<SqlValue>,
> {
    rows.insert(u.id@, row_of(u))
}

/// Upserting two profiles with the same id leaves exactly one row for that id,
/// and it holds the second profile; no other row changes and no row is added
/// besides the one for that id.
pub proof fn lemma_upsert_last_write_wins(
    rows: Map<Seq<char>, Seq<SqlValue>>,
    first: User,
    second: User,
)
    requires
        first.id@ == second.id@,
    ensures
        upserted(upserted(rows, first), second) == upserted(rows, second),
        upserted(upserted(rows, first), second)[second.id@] == row_of(second),
        upserted(upserted(rows, first), second).dom() == rows.dom().insert(second.id@),
{
    assert(upserted(upserted(rows, first), second) =~= upserted(rows, second));
}

} // verus!
