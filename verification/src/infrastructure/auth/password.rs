//! One-way salted password hashing with Argon2, and verification against a
//! stored hash.

use crate::text::{ok_chars, opt_view};
use vstd::prelude::*;

verus! {

/// Why hashing or verifying a password failed. None of these is a wrong
/// password: a wrong password is the answer `false`.
#[derive(Debug, Clone, Copy, PartialEq, Eq, Structural)]
pub enum PasswordError {
    /// The stored hash is not a well-formed hash string.
    HashCorrupt,
    /// The system could not supply randomness for a salt.
    EntropyFailure,
    /// Argon2 refused the password or the salt.
    Hashing,
}

/// The hash string that Argon2, with its default parameters, derives from a
/// password and a B64-encoded salt; `None` where it reports an error.
pub uninterp spec fn argon2_phc(password: Seq<char>, salt: Seq<char>) -> Option<Seq<char>>;

/// Whether Argon2 accepts a password for a hash string; `None` where the
/// hash string does not parse.
pub uninterp spec fn argon2_match(password: Seq<char>, hash: Seq<char>) -> Option<bool>;

/// Draws a salt: seeds a ChaCha20 generator from the operating system with
/// `SeedableRng::from_rng(OsRng)` and hands it to `SaltString::generate`.
///
/// Trusted: nothing is claimed of the salt, which differs from call to call;
/// `None` is the case where the operating system gave no entropy.
#[verifier::external_body]
fn fresh_salt() -> (r: Option<String>) {
    match <rand_chacha::ChaCha20Rng as rand::SeedableRng>::from_rng(rand::rngs::OsRng) {
        Ok(rng) => Some(argon2::password_hash::SaltString::generate(rng).as_str().to_owned()),
        Err(_) => None,
    }
}

/// Hashes with `Argon2::default().hash_password` and prints the result as a
/// PHC string.
///
/// Trusted: the result is Argon2's hash string for this password and salt,
/// `None` where the salt is not valid B64 or Argon2 reports an error; and
/// Argon2 accepts the password for the hash string it has just derived from
/// it (verification recomputes the hash with the parameters and the salt
/// that the string records, and compares).
#[verifier::external_body]
fn argon2_hash(password: &str, salt: &str) -> (r: Option<String>)
    ensures
        match r {
            Some(h) => argon2_phc(password@, salt@) == Some(h@) && argon2_match(password@, h@)
                == Some(true),
            None => argon2_phc(password@, salt@) is None,
        },
{
    let salt = argon2::password_hash::SaltString::from_b64(salt).ok()?;
    let hash = argon2::PasswordHasher::hash_password(
        &argon2::Argon2::default(),
        password.as_bytes(),
        &salt,
    ).ok()?;
    Some(hash.to_string())
}

/// Parses the hash string with `PasswordHash::new` and checks the password
/// with `Argon2::default().verify_password`.
///
/// Trusted: the result is `None` where the string does not parse, and
/// otherwise whether Argon2 accepted the password.
#[verifier::external_body]
fn argon2_check(password: &str, hash: &str) -> (r: Option<bool>)
    ensures
        r == argon2_match(password@, hash@),
{
    match argon2::PasswordHash::new(hash) {
        Ok(parsed) => Some(
            argon2::PasswordVerifier::verify_password(
                &argon2::Argon2::default(),
                password.as_bytes(),
                &parsed,
            ).is_ok(),
        ),
        Err(_) => None,
    }
}

/// What verifying `password` against `hash` answers: whether it matches, or
/// that the hash is corrupt.
pub open spec fn verification(password: Seq<char>, hash: Seq<char>) -> Result<bool, PasswordError> {
    match argon2_match(password, hash) {
        Some(matches) => Ok(matches),
        None => Err(PasswordError::HashCorrupt),
    }
}

/// What hashing `password` under `salt` yields, where a salt could be drawn
/// at all.
pub open spec fn hashing(password: Seq<char>, salt: Option<Seq<char>>) -> Result<
    Seq<char>,
    PasswordError,
> {
    match salt {
        None => Err(PasswordError::EntropyFailure),
        Some(s) => match argon2_phc(password, s) {
            Some(h) => Ok(h),
            None => Err(PasswordError::Hashing),
        },
    }
}

/// Hashes `password` under the given salt, or reports that no salt was
/// available. With the same password and salt the result is the same.
pub fn hash_password_with_salt(password: &str, salt: Option<&str>) -> (r: Result<
    String,
    PasswordError,
>)
    ensures
        ok_chars(r) == hashing(password@, opt_view(salt)),
        r matches Ok(h) ==> verification(password@, h@) == Ok::<bool, PasswordError>(true),
{
    match salt {
        None => Err(PasswordError::EntropyFailure),
        Some(s) => match argon2_hash(password, s) {
            Some(h) => Ok(h),
            None => Err(PasswordError::Hashing),
        },
    }
}

/// Hashes `password` under a salt drawn for this call. Whatever salt was
/// drawn, a hash that comes back verifies against the password; the only
/// failures are a missing entropy source and a refusal by Argon2, never
/// `HashCorrupt`.
pub fn hash_password(password: &str) -> (r: Result<String, PasswordError>)
    ensures
        r matches Ok(h) ==> verification(password@, h@) == Ok::<bool, PasswordError>(true),
        r matches Err(e) ==> e == PasswordError::EntropyFailure || e == PasswordError::Hashing,
        exists|salt: Option<Seq<char>>| ok_chars(r) == hashing(password@, salt),
{
    let salt = fresh_salt();
    let r = match &salt {
        Some(s) => hash_password_with_salt(password, Some(s.as_str())),
        None => hash_password_with_salt(password, None),
    };
    proof {
        let ghost drawn: Option<Seq<char>> = match salt {
            Some(s) => Some(s@),
            None => None,
        };
        assert(ok_chars(r) == hashing(password@, drawn));
    }
    r
}

/// Checks `password` against a stored hash: `Ok(true)` on a match,
/// `Ok(false)` on any wrong password, and `HashCorrupt` only where the stored
/// string is not a hash string at all.
pub fn verify_password(password: &str, hash: &str) -> (r: Result<bool, PasswordError>)
    ensures
        r == verification(password@, hash@),
{
    match argon2_check(password, hash) {
        Some(matches) => Ok(matches),
        None => Err(PasswordError::HashCorrupt),
    }
}

} // verus!
