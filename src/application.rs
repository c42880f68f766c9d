//! Client applications: self-service registration and the lookups that the
//! endpoints make on registered applications.
use vstd::prelude::*;

use crate::scopes::{is_sorted, join_scopes, join_spaces, parse_scopes, scope_set, scopes_of, sort_scopes, views};
use crate::users::SqlValue;
use crate::{all_alphanumeric, gen_string};

verus! {

/// Length of a generated client id.
pub const CLIENT_ID_LEN: usize = 32;

/// Length of a generated client secret.
pub const CLIENT_SECRET_LEN: usize = 64;

/// A registration request.
#[derive(Clone, Debug)]
pub struct CreateApplication {
    pub name: String,
    pub description: Option<String>,
    pub redirect_uri: String,
    pub scopes: Vec<String>,
}

/// The credentials handed to a newly registered application.
#[derive(Clone, Debug)]
pub struct CreateApplicationResponse {
    pub client_id: String,
    pub client_secret: String,
}

/// A registered application as it is stored; `scopes` is the space-joined
/// list of allowed scopes.
#[derive(Clone, Debug)]
pub struct ApplicationRecord {
    pub client_id: String,
    pub client_secret: String,
    pub redirect_uri: String,
    pub name: String,
    pub description: Option<String>,
    pub scopes: String,
}

/// The statement that stores a registered application.
pub const INSERT_APPLICATION_SQL: &'static str = "INSERT INTO applications (client_id, client_secret, redirect_uri, name, description, scopes) VALUES (?, ?, ?, ?, ?, ?) RETURNING client_id, client_secret";

/// The statement that reads the secret of an application.
pub const SELECT_SECRET_SQL: &'static str = "SELECT client_secret FROM applications WHERE client_id = ?";

/// The statement that reads the allowed scopes of an application.
pub const SELECT_SCOPES_SQL: &'static str = "SELECT scopes FROM applications WHERE client_id = ?";

/// Registers an application: its scopes are sorted in place (same scopes,
/// ascending order) and stored
/// joined by spaces, and the server draws its client id (32 letters and
/// digits) and secret (64 letters and digits); neither comes from the client.
pub fn create_application(data: &mut CreateApplication) -> (r: ApplicationRecord)
    ensures
        final(data).name == old(data).name,
        final(data).description == old(data).description,
        final(data).redirect_uri == old(data).redirect_uri,
        final(data).scopes@.to_multiset() == old(data).scopes@.to_multiset(),
        is_sorted(views(final(data).scopes@)),
        final(data).scopes@.len() == old(data).scopes@.len(),
        scope_set(final(data).scopes@) == scope_set(old(data).scopes@),
        r.scopes@ == join_spaces(views(final(data).scopes@)),
        r.client_id@.len() == CLIENT_ID_LEN,
        all_alphanumeric(r.client_id@),
        r.client_secret@.len() == CLIENT_SECRET_LEN,
        all_alphanumeric(r.client_secret@),
        r.redirect_uri == old(data).redirect_uri,
        r.name == old(data).name,
        r.description == old(data).description,
{
    sort_scopes(&mut data.scopes);
    ApplicationRecord {
        client_id: gen_string(CLIENT_ID_LEN),
        client_secret: gen_string(CLIENT_SECRET_LEN),
        redirect_uri: data.redirect_uri.clone(),
        name: data.name.clone(),
        description: crate::users::clone_opt(&data.description),
        scopes: join_scopes(&data.scopes),
    }
}

impl ApplicationRecord {
    /// The parameters of the insert statement, in its column order.
    pub fn bindings(&self) -> (r: Vec<SqlValue>)
        ensures
            r@ == seq![
                SqlValue::Text(self.client_id),
                SqlValue::Text(self.client_secret),
                SqlValue::Text(self.redirect_uri),
                SqlValue::Text(self.name),
                crate::users::text_of(self.description),
                SqlValue::Text(self.scopes),
            ],
    {
        let mut r: Vec<SqlValue> = Vec::new();
        r.push(SqlValue::Text(self.client_id.clone()));
        r.push(SqlValue::Text(self.client_secret.clone()));
        r.push(SqlValue::Text(self.redirect_uri.clone()));
        r.push(SqlValue::Text(self.name.clone()));
        r.push(
            match &self.description {
                Some(d) => SqlValue::Text(d.clone()),
                None => SqlValue::Null,
            },
        );
        r.push(SqlValue::Text(self.scopes.clone()));
        assert(r@ =~= seq![
            SqlValue::Text(self.client_id),
            SqlValue::Text(self.client_secret),
            SqlValue::Text(self.redirect_uri),
            SqlValue::Text(self.name),
            crate::users::text_of(self.description),
            SqlValue::Text(self.scopes),
        ]);
        r
    }

    /// The credentials to hand to the registered application.
    pub fn response(&self) -> (r: CreateApplicationResponse)
        ensures
            r.client_id == self.client_id,
            r.client_secret == self.client_secret,
    {
        CreateApplicationResponse {
            client_id: self.client_id.clone(),
            client_secret: self.client_secret.clone(),
        }
    }
}

/// The allowed scopes of an application from its stored scope column
/// (`None`: no application has the client id).
pub fn get_scopes(stored: &Option<String>) -> (r: Option<Vec<String>>)
    ensures
        match *stored {
            None => r is None,
            Some(s) => r matches Some(v) && scope_set(v@) == scopes_of(s@) && views(
                v@,
            ).no_duplicates(),
        },
{
    match stored {
        Some(s) => Some(parse_scopes(s.as_str())),
        None => None,
    }
}

} // verus!
