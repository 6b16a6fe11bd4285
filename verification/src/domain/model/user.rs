//! Users, their identifiers and their roles.

use crate::domain::model::Timestamp;
use crate::text::str_eq;
use vstd::prelude::*;

verus! {

/// The text that the `uuid` crate prints for the identifier with the given
/// 128-bit value.
pub uninterp spec fn uuid_text(value: u128) -> Seq<char>;

/// The 128-bit value that the `uuid` crate reads from a text, if it reads one.
pub uninterp spec fn uuid_value(text: Seq<char>) -> Option<u128>;

/// Prints an identifier with `uuid::Uuid::from_u128` and the crate's
/// `Display`, which writes the hyphenated lower-case form.
///
/// Trusted: the result is the crate's text for `value`, and the crate's
/// parser reads that text back as `value` (its documentation states that
/// `parse_str` accepts every format the crate itself produces).
#[verifier::external_body]
fn uuid_to_text(value: u128) -> (r: String)
    ensures
        r@ == uuid_text(value),
        uuid_value(r@) == Some(value),
{
    uuid::Uuid::from_u128(value).to_string()
}

/// Reads an identifier with `uuid::Uuid::parse_str`.
///
/// Trusted: the result is the crate's reading of `text`, `None` where the
/// crate reports an error.
#[verifier::external_body]
fn uuid_from_text(text: &str) -> (r: Option<u128>)
    ensures
        r == uuid_value(text@),
{
    match uuid::Uuid::parse_str(text) {
        Ok(id) => Some(id.as_u128()),
        Err(_) => None,
    }
}

/// Draws a random identifier with `uuid::Uuid::new_v4`.
///
/// Trusted: nothing is claimed of the result, which differs from call to
/// call.
#[verifier::external_body]
pub(crate) fn uuid_v4() -> (r: u128) {
    uuid::Uuid::new_v4().as_u128()
}

/// A globally unique user identifier: the 128-bit value of a UUID.
#[derive(Debug, Clone, Copy, PartialEq, Eq, Structural)]
pub struct UserId(pub u128);

impl UserId {
    /// The identifier in its text form.
    pub open spec fn text(self) -> Seq<char> {
        uuid_text(self.0)
    }

    /// What a text denotes as an identifier, if anything.
    pub open spec fn parsed(text: Seq<char>) -> Option<UserId> {
        match uuid_value(text) {
            Some(v) => Some(UserId(v)),
            None => None,
        }
    }

    /// The text form of this identifier. Parsing it gives the identifier back.
    pub fn to_string(&self) -> (r: String)
        ensures
            r@ == self.text(),
            UserId::parsed(r@) == Some(*self),
    {
        uuid_to_text(self.0)
    }

    /// Parses an identifier from its text form.
    pub fn parse(text: &str) -> (r: Option<UserId>)
        ensures
            r == UserId::parsed(text@),
    {
        match uuid_from_text(text) {
            Some(v) => Some(UserId(v)),
            None => None,
        }
    }
}

/// The closed set of roles a subject can hold.
#[derive(Debug, Clone, Copy, PartialEq, Eq, Structural)]
pub enum Role {
    User,
    Admin,
}

impl Role {
    /// The name of the role as it is shown to people: lower case.
    pub open spec fn display(self) -> Seq<char> {
        match self {
            Role::User => "user"@,
            Role::Admin => "admin"@,
        }
    }

    /// The name of the role inside a token: the variant's name.
    pub open spec fn wire_name(self) -> Seq<char> {
        match self {
            Role::User => "User"@,
            Role::Admin => "Admin"@,
        }
    }

    /// The role that a text names, in either casing of its first letter.
    pub open spec fn named_by(text: Seq<char>) -> Option<Role> {
        if text == "Admin"@ || text == "admin"@ {
            Some(Role::Admin)
        } else if text == "User"@ || text == "user"@ {
            Some(Role::User)
        } else {
            None
        }
    }

    /// The role that a token's `role` claim names: the exact variant name.
    pub open spec fn from_wire_name(text: Seq<char>) -> Option<Role> {
        if text == "Admin"@ {
            Some(Role::Admin)
        } else if text == "User"@ {
            Some(Role::User)
        } else {
            None
        }
    }

    /// Whether this role passes the admin guard.
    pub fn is_admin(&self) -> (r: bool)
        ensures
            r == (*self == Role::Admin),
    {
        match self {
            Role::Admin => true,
            Role::User => false,
        }
    }

    /// The lower-case name of the role.
    pub fn to_string(&self) -> (r: String)
        ensures
            r@ == self.display(),
    {
        match self {
            Role::User => "user".to_owned(),
            Role::Admin => "admin".to_owned(),
        }
    }

    /// Reads a role from `Admin`, `admin`, `User` or `user`; any other text
    /// is an error.
    pub fn from_str(s: &str) -> (r: Result<Role, ()>)
        ensures
            match Role::named_by(s@) {
                Some(role) => r == Ok::<Role, ()>(role),
                None => r is Err,
            },
    {
        if str_eq(s, "Admin") || str_eq(s, "admin") {
            Ok(Role::Admin)
        } else if str_eq(s, "User") || str_eq(s, "user") {
            Ok(Role::User)
        } else {
            Err(())
        }
    }

    /// The name of the role as a token carries it.
    pub fn as_wire_name(&self) -> (r: &'static str)
        ensures
            r@ == self.wire_name(),
    {
        match self {
            Role::User => "User",
            Role::Admin => "Admin",
        }
    }

    /// Reads the `role` claim of a token.
    pub fn parse_wire_name(s: &str) -> (r: Option<Role>)
        ensures
            r == Role::from_wire_name(s@),
    {
        if str_eq(s, "Admin") {
            Some(Role::Admin)
        } else if str_eq(s, "User") {
            Some(Role::User)
        } else {
            None
        }
    }
}

/// A user as the repository stores it.
#[derive(Debug)]
pub struct User {
    pub id: UserId,
    pub username: String,
    pub password_hash: String,
    pub email: String,
    pub created_at: Timestamp,
    pub updated_at: Option<Timestamp>,
    pub role: Role,
}

impl Clone for User {
    fn clone(&self) -> (r: Self)
        ensures
            r == *self,
    {
        User {
            id: self.id,
            username: self.username.clone(),
            password_hash: self.password_hash.clone(),
            email: self.email.clone(),
            created_at: self.created_at,
            updated_at: self.updated_at,
            role: self.role,
        }
    }
}

/// The two spellings of a role never name different roles: what a token
/// carries for a role is read back as that role, and the display name is
/// accepted by `from_str` as the same role.
pub proof fn lemma_role_names_round_trip(role: Role)
    ensures
        Role::from_wire_name(role.wire_name()) == Some(role),
        Role::named_by(role.wire_name()) == Some(role),
        Role::named_by(role.display()) == Some(role),
{
    reveal_strlit("Admin");
    reveal_strlit("admin");
    reveal_strlit("User");
    reveal_strlit("user");
    assert("Admin"@.len() == 5 && "admin"@.len() == 5);
    assert("User"@.len() == 4 && "user"@.len() == 4);
}

} // verus!
