//! Users: logging in, registering, and changing a profile.
//!
//! The repository is an outside collaborator. Each use case here takes what
//! the repository found and returns what is to be stored or answered; the
//! caller does the lookup before and the write after.

use crate::domain::error::{DomainError, DomainErrorView};
use crate::domain::model::user::{uuid_v4, Role, User, UserId};
use crate::domain::model::{utc_now, Timestamp};
use crate::infrastructure::auth::password::{
    hash_password, verification, verify_password, PasswordError,
};
use crate::infrastructure::auth::{
    checked_claims, claims_issued_at, create_jwt_token, create_jwt_token_at, decoded_token,
    issued_at_some_time, issued_token, Claims, TokenError, TOKEN_TTL_SECONDS,
};
use crate::infrastructure::security::keys::Keys;
use crate::interfaces::api::dto::user::UpdateUserPayload;
use crate::text::replaced;
use vstd::pervasive::cloned;
use vstd::prelude::*;

verus! {

/// A well-formed hash string that no password is expected to match. A login
/// for an unknown user verifies against it, so that the answer takes as long
/// as for a known user.
pub const DECOY_HASH: &'static str =
    "$argon2id$v=19$m=19456,t=2,p=1$ZGVjb3ktc2FsdC1ieXRlcw$bm8gcGFzc3dvcmQgaGFzaGVzIHRvIHRoaXMgdmFsdWU";

/// The one message of a refused login. It does not tell an unknown user from
/// a wrong password.
pub open spec fn invalid_credentials() -> DomainErrorView {
    DomainErrorView::Unauthorized("Invalid credentials"@)
}

/// Whether a login with `password` is to be granted to what the repository
/// found under the username: only to a user whose stored hash the password
/// verifies against. A corrupt hash grants nothing.
pub open spec fn credentials_accepted(found: Option<User>, password: Seq<char>) -> bool {
    match found {
        Some(user) => verification(password, user.password_hash@) == Ok::<bool, PasswordError>(
            true,
        ),
        None => false,
    }
}

/// What a login at the time `now` answers: the token of the user, or the
/// error. A token that cannot be issued is an internal error.
pub open spec fn login_outcome(found: Option<User>, password: Seq<char>, secret: Seq<u8>, now: u64)
    -> Result<Seq<char>, DomainErrorView> {
    match found {
        Some(user) if credentials_accepted(found, password) => {
            if now + TOKEN_TTL_SECONDS > u64::MAX {
                Err(DomainErrorView::InternalError)
            } else {
                match issued_token(claims_issued_at(user.id, user.role, now), secret) {
                    Ok(token) => Ok(token),
                    Err(_) => Err(DomainErrorView::InternalError),
                }
            }
        },
        _ => Err(invalid_credentials()),
    }
}

/// A login result with its texts as characters.
pub open spec fn login_view(r: Result<String, DomainError>) -> Result<Seq<char>, DomainErrorView> {
    match r {
        Ok(token) => Ok(token@),
        Err(e) => Err(e@),
    }
}

/// A user after the changes of a payload at the time `now`, with
/// `password_hash` as the hash to store.
pub open spec fn changed_user(
    user: User,
    payload: UpdateUserPayload,
    password_hash: String,
    now: Timestamp,
) -> User {
    User {
        id: user.id,
        username: replaced(user.username, payload.username),
        password_hash,
        email: replaced(user.email, payload.email),
        created_at: user.created_at,
        updated_at: Some(now),
        role: match payload.role {
            Some(role) => role,
            None => user.role,
        },
    }
}

/// The use cases around users, over a repository and the key material.
pub struct UserService<R> {
    repo: R,
    keys: Keys,
}

impl<R> UserService<R> {
    /// The repository of the service.
    pub closed spec fn spec_repo(&self) -> R {
        self.repo
    }

    /// The secret of the service's key material.
    pub closed spec fn secret(&self) -> Seq<u8> {
        self.keys@
    }

    pub fn new(repo: R, keys: Keys) -> (r: Self)
        ensures
            r.spec_repo() == repo,
            r.secret() == keys@,
    {
        UserService { repo, keys }
    }

    /// The repository, for the caller to look up and to store.
    pub fn repo(&self) -> (r: &R)
        ensures
            *r == self.spec_repo(),
    {
        &self.repo
    }

    /// The key material that tokens are signed with.
    pub fn keys(&self) -> (r: &Keys)
        ensures
            r@ == self.secret(),
    {
        &self.keys
    }

    /// Checks the password against what the repository found under the
    /// username. For an unknown user the password is verified against a
    /// decoy hash and the result thrown away, so that the work done does not
    /// reveal whether the user exists.
    pub fn check_credentials(&self, found: Option<&User>, password: &str) -> (r: bool)
        ensures
            r == credentials_accepted(
                match found {
                    Some(u) => Some(*u),
                    None => None,
                },
                password@,
            ),
    {
        match found {
            Some(user) => match verify_password(password, user.password_hash.as_str()) {
                Ok(matches) => matches,
                Err(_) => false,
            },
            None => {
                let _ = verify_password(password, DECOY_HASH);
                false
            },
        }
    }

    /// Logs a user in at the time `now`: with the right password the answer
    /// is a token for the user's identifier and role, valid for 24 hours;
    /// with an unknown user, a wrong password or a corrupt stored hash it is
    /// `Unauthorized` with the message `Invalid credentials`.
    pub fn login_at(&self, found: Option<&User>, password: &str, now: u64) -> (r: Result<
        String,
        DomainError,
    >)
        ensures
            login_view(r) == login_outcome(
                match found {
                    Some(u) => Some(*u),
                    None => None,
                },
                password@,
                self.secret(),
                now,
            ),
            r matches Ok(t) ==> found matches Some(u) && checked_claims(
                decoded_token(t@, self.secret()),
                now,
            ) == Ok::<Claims, TokenError>(claims_issued_at(u.id, u.role, now)),
    {
        if !self.check_credentials(found, password) {
            return Err(DomainError::Unauthorized("Invalid credentials".to_owned()));
        }
        match found {
            Some(user) => match create_jwt_token_at(user.id, user.role, &self.keys, now) {
                Ok(token) => Ok(token),
                Err(_) => Err(DomainError::InternalError),
            },
            None => Err(DomainError::Unauthorized("Invalid credentials".to_owned())),
        }
    }

    /// Logs a user in at the present time of the system clock. Whatever the
    /// clock read: a login is refused with `Invalid credentials` exactly if
    /// the credentials are not accepted, and a token that comes back is the
    /// one issued for the user at some time.
    pub fn login(&self, found: Option<&User>, password: &str) -> (r: Result<String, DomainError>)
        ensures
            !credentials_accepted(
                match found {
                    Some(u) => Some(*u),
                    None => None,
                },
                password@,
            ) <==> login_view(r) == Err::<Seq<char>, DomainErrorView>(invalid_credentials()),
            r matches Err(e) ==> e@ == invalid_credentials() || e@
                == DomainErrorView::InternalError,
            r matches Ok(t) ==> found matches Some(u) && issued_at_some_time(
                t@,
                u.id,
                u.role,
                self.secret(),
            ),
    {
        if !self.check_credentials(found, password) {
            return Err(DomainError::Unauthorized("Invalid credentials".to_owned()));
        }
        match found {
            Some(user) => match create_jwt_token(user.id, user.role, &self.keys) {
                Ok(token) => Ok(token),
                Err(_) => Err(DomainError::InternalError),
            },
            None => Err(DomainError::Unauthorized("Invalid credentials".to_owned())),
        }
    }
}

impl<R> UserService<R> {
    /// Registers a user under the given identifier at the time `now`: hashes
    /// the password under a fresh salt and builds the record to store, in
    /// the role `User` and never changed so far. The stored hash verifies
    /// against the password. A failure of hashing is an internal error.
    pub fn create_user_with(
        &self,
        id: UserId,
        username: String,
        password: String,
        email: String,
        now: Timestamp,
    ) -> (r: Result<User, DomainError>)
        ensures
            match r {
                Ok(user) => user == (User {
                    id,
                    username,
                    password_hash: user.password_hash,
                    email,
                    created_at: now,
                    updated_at: None,
                    role: Role::User,
                }) && verification(password@, user.password_hash@) == Ok::<bool, PasswordError>(
                    true,
                ),
                Err(e) => e@ == DomainErrorView::InternalError,
            },
    {
        let password_hash = match hash_password(password.as_str()) {
            Ok(hash) => hash,
            Err(_) => {
                return Err(DomainError::InternalError);
            },
        };
        Ok(
            User {
                id,
                username,
                password_hash,
                email,
                role: Role::User,
                created_at: now,
                updated_at: None,
            },
        )
    }

    /// Registers a user under a fresh random identifier at the present time
    /// of the system clock. Whatever was drawn and read, the record holds
    /// the given name and address, the role `User`, and a hash that verifies
    /// against the password.
    pub fn create_user(&self, username: String, password: String, email: String) -> (r: Result<
        User,
        DomainError,
    >)
        ensures
            match r {
                Ok(user) => user.username == username && user.email == email && user.role
                    == Role::User && user.updated_at is None && verification(
                    password@,
                    user.password_hash@,
                ) == Ok::<bool, PasswordError>(true),
                Err(e) => e@ == DomainErrorView::InternalError,
            },
    {
        self.create_user_with(UserId(uuid_v4()), username, password, email, utc_now())
    }

    /// Changes a user at the time `now`. `found` is what the repository
    /// holds under the user's identifier. Every field that the payload holds
    /// replaces the user's; a new password is hashed under a fresh salt, and
    /// the hash that is stored verifies against it. Without a new password
    /// the change cannot fail for a user that was found.
    pub fn update_at(&self, found: Option<User>, payload: UpdateUserPayload, now: Timestamp) -> (r:
        Result<User, DomainError>)
        ensures
            match (found, r) {
                (None, Err(e)) => e@ == DomainErrorView::NotFound,
                (None, Ok(_)) => false,
                (Some(user), Ok(changed)) => changed == changed_user(
                    user,
                    payload,
                    changed.password_hash,
                    now,
                ) && match payload.password {
                    Some(p) => verification(p@, changed.password_hash@) == Ok::<
                        bool,
                        PasswordError,
                    >(true),
                    None => changed.password_hash == user.password_hash,
                },
                (Some(_), Err(e)) => e@ == DomainErrorView::InternalError && payload.password
                    is Some,
            },
    {
        let mut user = match found {
            None => {
                return Err(DomainError::NotFound);
            },
            Some(user) => user,
        };
        match payload.username {
            Some(username) => {
                user.username = username;
            },
            None => {},
        }
        match payload.email {
            Some(email) => {
                user.email = email;
            },
            None => {},
        }
        match payload.password {
            Some(password) => {
                match hash_password(password.as_str()) {
                    Ok(hash) => {
                        user.password_hash = hash;
                    },
                    Err(_) => {
                        return Err(DomainError::InternalError);
                    },
                }
            },
            None => {},
        }
        match payload.role {
            Some(role) => {
                user.role = role;
            },
            None => {},
        }
        user.updated_at = Some(now);
        Ok(user)
    }

    /// Changes a user at the present time of the system clock. Whatever the
    /// clock read, the result is the one of `update_at` at some time.
    pub fn update(&self, found: Option<User>, payload: UpdateUserPayload) -> (r: Result<
        User,
        DomainError,
    >)
        ensures
            match (found, r) {
                (None, Err(e)) => e@ == DomainErrorView::NotFound,
                (None, Ok(_)) => false,
                (Some(user), Ok(changed)) => (exists|now: Timestamp|
                    changed == #[trigger] changed_user(
                        user,
                        payload,
                        changed.password_hash,
                        now,
                    )) && match payload.password {
                    Some(p) => verification(p@, changed.password_hash@) == Ok::<
                        bool,
                        PasswordError,
                    >(true),
                    None => changed.password_hash == user.password_hash,
                },
                (Some(_), Err(e)) => e@ == DomainErrorView::InternalError && payload.password
                    is Some,
            },
    {
        let now = utc_now();
        let ghost before = found;
        let ghost changes = payload;
        let r = self.update_at(found, payload, now);
        proof {
            if before is Some && r is Ok {
                let changed = r->Ok_0;
                assert(changed == changed_user(
                    before->Some_0,
                    changes,
                    changed.password_hash,
                    now,
                ));
            }
        }
        r
    }
}

impl<R: Clone> Clone for UserService<R> {
    /// A copy over a copy of the repository, with the same key material.
    fn clone(&self) -> (r: Self)
        ensures
            r.secret() == self.secret(),
            cloned::<R>(self.spec_repo(), r.spec_repo()),
    {
        UserService { repo: self.repo.clone(), keys: self.keys.clone() }
    }
}

/// A refused login reads the same whether the user is unknown, the password
/// wrong or the stored hash corrupt, at every time and under every secret.
pub proof fn lemma_refusals_are_alike(
    found: Option<User>,
    password: Seq<char>,
    secret: Seq<u8>,
    now: u64,
)
    requires
        !credentials_accepted(found, password),
    ensures
        login_outcome(found, password, secret, now) == login_outcome(None, password, secret, now),
        login_outcome(found, password, secret, now) == Err::<Seq<char>, DomainErrorView>(
            invalid_credentials(),
        ),
{
}

} // verus!
