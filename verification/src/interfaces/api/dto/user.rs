//! The payloads about users and their validation.
//!
//! A payload is first held against the rules of its fields; all violations
//! are reported together, one line each, in the order of the fields. Rules
//! that span fields, and the requirements on a password, are checked after
//! that.

use crate::domain::model::user::{Role, User, UserId};
use crate::domain::model::Timestamp;
use crate::domain::validation::{password_verdict, PasswordRequirements};
use crate::interfaces::api::error::{ApiError, ApiErrorView};
use crate::interfaces::api::validation::{
    email_rule, length_rule, opt_chars, push_email, push_length, push_required, reject_violations,
    require_field, require_password, required_password, required_rule, unit_view, validate_dto,
    violations_verdict, violations_view, Validate, Violation, ViolationView,
};
use crate::text::str_eq;
use vstd::prelude::*;

verus! {

/// Whether two optional texts hold the same characters, or are both absent.
pub fn same_text(a: &Option<String>, b: &Option<String>) -> (r: bool)
    ensures
        r == (opt_chars(*a) == opt_chars(*b)),
{
    match (a, b) {
        (Some(x), Some(y)) => str_eq(x.as_str(), y.as_str()),
        (None, None) => true,
        _ => false,
    }
}

/// What the public may know of a user.
#[derive(Debug)]
pub struct UserPublic {
    pub id: UserId,
    pub username: String,
    pub email: String,
    pub created_at: Timestamp,
}

impl UserPublic {
    /// The public part of a user: everything but the password hash, the
    /// role and the time of the last change.
    pub fn from(user: User) -> (r: UserPublic)
        ensures
            r.id == user.id,
            r.username == user.username,
            r.email == user.email,
            r.created_at == user.created_at,
    {
        UserPublic {
            id: user.id,
            username: user.username,
            email: user.email,
            created_at: user.created_at,
        }
    }
}

/// The payload of a registration.
#[derive(Debug)]
pub struct NewUser {
    pub username: Option<String>,
    pub password: Option<String>,
    pub confirm_password: Option<String>,
    pub email: Option<String>,
}

/// What is to be checked once the fields of a payload are in order: that
/// the password and its confirmation agree, with `mismatch` as the message
/// where they do not, and that the password meets the requirements.
pub open spec fn password_pair_verdict(
    password: Option<Seq<char>>,
    confirmation: Option<Seq<char>>,
    mismatch: Seq<char>,
) -> Result<(), ApiErrorView> {
    if password != confirmation {
        Err(ApiErrorView::BadRequest(mismatch))
    } else {
        match required_password(password) {
            Ok(_) => Ok(()),
            Err(e) => Err(e),
        }
    }
}

impl Validate for NewUser {
    /// The field rules that the payload breaks: the username is required
    /// and 3 to 50 characters long, the password and its confirmation are
    /// required, the e-mail address is required and well-formed.
    open spec fn violations(&self) -> Seq<ViolationView> {
        required_rule(self.username is Some, "username"@, "Username obligatoire"@) + length_rule(
            opt_chars(self.username),
            3,
            50,
            "username"@,
            "Username must be between 3 and 50 characters"@,
        ) + required_rule(self.password is Some, "password"@, "Password obligatoire"@)
            + required_rule(
            self.confirm_password is Some,
            "confirm_password"@,
            "Confirm Password obligatoire"@,
        ) + email_rule(opt_chars(self.email), "email"@, "Email Invalide"@) + required_rule(
            self.email is Some,
            "email"@,
            "Email obligatoire"@,
        )
    }

    /// Holds the payload against the rules of its fields.
    fn validate(&self) -> (r: Result<(), ApiError>)
        ensures
            r is Ok ==> self.username is Some && self.password is Some && self.confirm_password
                is Some && self.email is Some,
    {
        let mut violations: Vec<Violation> = Vec::new();
        assert(violations_view(violations@) =~= Seq::empty());
        push_required(&mut violations, self.username.is_some(), "username", "Username obligatoire");
        push_length(
            &mut violations,
            &self.username,
            3,
            50,
            "username",
            "Username must be between 3 and 50 characters",
        );
        push_required(&mut violations, self.password.is_some(), "password", "Password obligatoire");
        push_required(
            &mut violations,
            self.confirm_password.is_some(),
            "confirm_password",
            "Confirm Password obligatoire",
        );
        push_email(&mut violations, &self.email, "email", "Email Invalide");
        push_required(&mut violations, self.email.is_some(), "email", "Email obligatoire");
        assert(violations_view(violations@) =~= self.violations());
        reject_violations(&violations)
    }
}

impl NewUser {
    /// What validating the registration answers.
    pub open spec fn user_verdict(&self) -> Result<(), ApiErrorView> {
        if self.violations().len() > 0 {
            violations_verdict(self.violations())
        } else {
            password_pair_verdict(
                opt_chars(self.password),
                opt_chars(self.confirm_password),
                "Passwords do not match"@,
            )
        }
    }

    /// What converting the registration answers, apart from the values.
    pub open spec fn domain_verdict(&self) -> Result<(), ApiErrorView> {
        if self.violations().len() > 0 {
            violations_verdict(self.violations())
        } else {
            password_pair_verdict(
                opt_chars(self.password),
                opt_chars(self.confirm_password),
                "Passwords must not match"@,
            )
        }
    }

    /// Validates the registration: the rules of the fields, that the
    /// password and its confirmation agree, and the requirements on the
    /// password.
    pub fn validate_user(&self) -> (r: Result<(), ApiError>)
        ensures
            unit_view(r) == self.user_verdict(),
    {
        match validate_dto(self) {
            Ok(()) => {},
            Err(e) => {
                return Err(e);
            },
        }
        if !same_text(&self.password, &self.confirm_password) {
            return Err(ApiError::BadRequest("Passwords do not match".to_owned()));
        }
        match require_password(self.password.clone()) {
            Ok(_) => Ok(()),
            Err(e) => Err(e),
        }
    }

    /// Validates the registration and hands out the username, the password
    /// and the e-mail address, in this order.
    pub fn validate_and_into_domain(self) -> (r: Result<(String, String, String), ApiError>)
        ensures
            match self.domain_verdict() {
                Ok(()) => r matches Ok(t) && Some(t.0) == self.username && Some(t.1)
                    == self.password && Some(t.2) == self.email,
                Err(e) => r matches Err(x) && x@ == e,
            },
    {
        match validate_dto(&self) {
            Ok(()) => {},
            Err(e) => {
                return Err(e);
            },
        }
        let username = match require_field(self.username, "username") {
            Ok(v) => v,
            Err(e) => {
                return Err(e);
            },
        };
        let email = match require_field(self.email, "email") {
            Ok(v) => v,
            Err(e) => {
                return Err(e);
            },
        };
        if !same_text(&self.password, &self.confirm_password) {
            return Err(ApiError::BadRequest("Passwords must not match".to_owned()));
        }
        match require_password(self.password) {
            Ok(password) => Ok((username, password, email)),
            Err(e) => Err(e),
        }
    }
}

/// The payload of a change to a user by an admin.
#[derive(Debug)]
pub struct UpdateUser {
    pub username: Option<String>,
    pub password: Option<String>,
    pub email: Option<String>,
    pub role: Option<Role>,
}

/// The changes to apply to a user: each field that is present replaces the
/// user's.
#[derive(Debug)]
pub struct UpdateUserPayload {
    pub username: Option<String>,
    pub password: Option<String>,
    pub email: Option<String>,
    pub role: Option<Role>,
}

/// What is to be checked of a password that may be left out: nothing where
/// it is, the requirements where it is not.
pub open spec fn optional_password_verdict(password: Option<Seq<char>>) -> Result<
    (),
    ApiErrorView,
> {
    match password {
        None => Ok(()),
        Some(p) => match password_verdict(p, PasswordRequirements::standard()) {
            Ok(()) => Ok(()),
            Err(message) => Err(ApiErrorView::BadRequest(message)),
        },
    }
}

impl Validate for UpdateUser {
    /// The field rules that the payload breaks: a username is 3 to 50
    /// characters long, an e-mail address is well-formed.
    open spec fn violations(&self) -> Seq<ViolationView> {
        length_rule(
            opt_chars(self.username),
            3,
            50,
            "username"@,
            "Username must be between 3 and 50 characters"@,
        ) + email_rule(opt_chars(self.email), "email"@, "Email Invalide"@)
    }

    /// Holds the payload against the rules of its fields.
    fn validate(&self) -> (r: Result<(), ApiError>) {
        let mut violations: Vec<Violation> = Vec::new();
        assert(violations_view(violations@) =~= Seq::empty());
        push_length(
            &mut violations,
            &self.username,
            3,
            50,
            "username",
            "Username must be between 3 and 50 characters",
        );
        push_email(&mut violations, &self.email, "email", "Email Invalide");
        assert(violations_view(violations@) =~= self.violations());
        reject_violations(&violations)
    }
}

impl UpdateUser {
    /// What validating the change answers.
    pub open spec fn user_verdict(&self) -> Result<(), ApiErrorView> {
        if self.violations().len() > 0 {
            violations_verdict(self.violations())
        } else {
            optional_password_verdict(opt_chars(self.password))
        }
    }

    /// Validates the change: the rules of the fields, and the requirements
    /// on the password where there is one.
    pub fn validate_user(&self) -> (r: Result<(), ApiError>)
        ensures
            unit_view(r) == self.user_verdict(),
    {
        match validate_dto(self) {
            Ok(()) => {},
            Err(e) => {
                return Err(e);
            },
        }
        if self.password.is_some() {
            match require_password(self.password.clone()) {
                Ok(_) => Ok(()),
                Err(e) => Err(e),
            }
        } else {
            Ok(())
        }
    }

    /// Validates the change and hands out what is to be applied: every
    /// field as it came.
    pub fn validate_and_into_domain(self) -> (r: Result<UpdateUserPayload, ApiError>)
        ensures
            match self.user_verdict() {
                Ok(()) => r matches Ok(p) && p.username == self.username && p.password
                    == self.password && p.email == self.email && p.role == self.role,
                Err(e) => r matches Err(x) && x@ == e,
            },
    {
        match validate_dto(&self) {
            Ok(()) => {},
            Err(e) => {
                return Err(e);
            },
        }
        let password = if self.password.is_some() {
            match require_password(self.password) {
                Ok(p) => Some(p),
                Err(e) => {
                    return Err(e);
                },
            }
        } else {
            None
        };
        Ok(
            UpdateUserPayload {
                username: self.username,
                password,
                email: self.email,
                role: self.role,
            },
        )
    }
}

/// The payload of a change to one's own profile.
#[derive(Debug)]
pub struct UpdateProfile {
    pub username: Option<String>,
    pub email: Option<String>,
    pub plain_password: Option<String>,
    pub confirm_password: Option<String>,
}

impl Validate for UpdateProfile {
    /// The field rules that the payload breaks: a username is 3 to 255
    /// characters long, an e-mail address is well-formed.
    open spec fn violations(&self) -> Seq<ViolationView> {
        length_rule(
            opt_chars(self.username),
            3,
            255,
            "username"@,
            "Username must be between 3 and 255 characters"@,
        ) + email_rule(opt_chars(self.email), "email"@, "Email Invalide"@)
    }

    /// Holds the payload against the rules of its fields.
    fn validate(&self) -> (r: Result<(), ApiError>) {
        let mut violations: Vec<Violation> = Vec::new();
        assert(violations_view(violations@) =~= Seq::empty());
        push_length(
            &mut violations,
            &self.username,
            3,
            255,
            "username",
            "Username must be between 3 and 255 characters",
        );
        push_email(&mut violations, &self.email, "email", "Email Invalide");
        assert(violations_view(violations@) =~= self.violations());
        reject_violations(&violations)
    }
}

impl UpdateProfile {
    /// What validating the change answers: a password or a confirmation
    /// that is given has to agree with the other and meet the requirements.
    pub open spec fn user_verdict(&self) -> Result<(), ApiErrorView> {
        if self.violations().len() > 0 {
            violations_verdict(self.violations())
        } else if self.plain_password is Some || self.confirm_password is Some {
            password_pair_verdict(
                opt_chars(self.plain_password),
                opt_chars(self.confirm_password),
                "Passwords do not match"@,
            )
        } else {
            Ok(())
        }
    }

    /// What converting the change answers, apart from the values: only a
    /// password that is given is held against its confirmation.
    pub open spec fn domain_verdict(&self) -> Result<(), ApiErrorView> {
        if self.violations().len() > 0 {
            violations_verdict(self.violations())
        } else if self.plain_password is Some {
            password_pair_verdict(
                opt_chars(self.plain_password),
                opt_chars(self.confirm_password),
                "Passwords do not match"@,
            )
        } else {
            Ok(())
        }
    }

    /// Validates the change to a profile.
    pub fn validate_user(&self) -> (r: Result<(), ApiError>)
        ensures
            unit_view(r) == self.user_verdict(),
    {
        match validate_dto(self) {
            Ok(()) => {},
            Err(e) => {
                return Err(e);
            },
        }
        if self.plain_password.is_some() || self.confirm_password.is_some() {
            if !same_text(&self.plain_password, &self.confirm_password) {
                return Err(ApiError::BadRequest("Passwords do not match".to_owned()));
            }
            match require_password(self.plain_password.clone()) {
                Ok(_) => Ok(()),
                Err(e) => Err(e),
            }
        } else {
            Ok(())
        }
    }

    /// Validates the change and hands out what is to be applied. A profile
    /// never changes the role.
    pub fn validate_and_into_domain(self) -> (r: Result<UpdateUserPayload, ApiError>)
        ensures
            match self.domain_verdict() {
                Ok(()) => r matches Ok(p) && p.username == self.username && p.password
                    == self.plain_password && p.email == self.email && p.role is None,
                Err(e) => r matches Err(x) && x@ == e,
            },
    {
        match validate_dto(&self) {
            Ok(()) => {},
            Err(e) => {
                return Err(e);
            },
        }
        let password = if self.plain_password.is_some() {
            if !same_text(&self.plain_password, &self.confirm_password) {
                return Err(ApiError::BadRequest("Passwords do not match".to_owned()));
            }
            match require_password(self.plain_password) {
                Ok(p) => Some(p),
                Err(e) => {
                    return Err(e);
                },
            }
        } else {
            None
        };
        Ok(UpdateUserPayload { username: self.username, password, email: self.email, role: None })
    }
}

/// The payload of a login as it arrives.
#[derive(Debug)]
pub struct RawLoginRequest {
    pub username: Option<String>,
    pub password: Option<String>,
}

impl Validate for RawLoginRequest {
    /// The field rules that the payload breaks: both fields are required.
    open spec fn violations(&self) -> Seq<ViolationView> {
        required_rule(self.username is Some, "username"@, "Username obligatoire"@) + required_rule(
            self.password is Some,
            "password"@,
            "Password obligatoire"@,
        )
    }

    /// Validates the login: a username and a password have to be there.
    fn validate(&self) -> (r: Result<(), ApiError>)
        ensures
            r is Ok <==> self.username is Some && self.password is Some,
    {
        let mut violations: Vec<Violation> = Vec::new();
        assert(violations_view(violations@) =~= Seq::empty());
        push_required(&mut violations, self.username.is_some(), "username", "Username obligatoire");
        push_required(&mut violations, self.password.is_some(), "password", "Password obligatoire");
        assert(violations_view(violations@) =~= self.violations());
        reject_violations(&violations)
    }
}

impl RawLoginRequest {
    /// Validates the login: a username and a password have to be there.
    pub fn validate_login(&self) -> (r: Result<(), ApiError>)
        ensures
            unit_view(r) == violations_verdict(self.violations()),
            r is Ok <==> self.username is Some && self.password is Some,
    {
        validate_dto(self)
    }
}

/// The credentials of a login.
#[derive(Debug)]
pub struct LoginUser {
    pub username: String,
    pub password: String,
}

impl LoginUser {
    /// The credentials of a validated login.
    pub fn try_from(raw: RawLoginRequest) -> (r: Result<LoginUser, ApiError>)
        requires
            raw.username is Some,
            raw.password is Some,
        ensures
            r matches Ok(login) && Some(login.username) == raw.username && Some(login.password)
                == raw.password,
    {
        Ok(LoginUser { username: raw.username.unwrap(), password: raw.password.unwrap() })
    }

    /// The credentials of a login, or the bad request that reports what is
    /// missing.
    pub fn from_raw(raw: RawLoginRequest) -> (r: Result<LoginUser, ApiError>)
        ensures
            match violations_verdict(raw.violations()) {
                Ok(()) => r matches Ok(login) && Some(login.username) == raw.username && Some(
                    login.password,
                ) == raw.password,
                Err(e) => r matches Err(x) && x@ == e,
            },
    {
        match raw.validate_login() {
            Ok(()) => LoginUser::try_from(raw),
            Err(e) => Err(e),
        }
    }
}

} // verus!
