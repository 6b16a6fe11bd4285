use api_back_trio::infrastructure::auth::password::{
    hash_password, hash_password_with_salt, verify_password, PasswordError,
};

const SALT: &str = "c29tZS1zYWx0LWJ5dGVzIQ";

#[test]
fn hashing_twice_gives_two_hashes_that_both_verify() {
    let p = "correct horse battery staple";
    let first = hash_password(p).unwrap();
    let second = hash_password(p).unwrap();
    assert_ne!(first, second);
    assert_eq!(verify_password(p, &first), Ok(true));
    assert_eq!(verify_password(p, &second), Ok(true));
}

#[test]
fn hash_is_a_self_describing_argon2_string() {
    let hash = hash_password("S3cret!pw").unwrap();
    let fields: Vec<&str> = hash.split('$').collect();
    assert_eq!(fields.len(), 6);
    assert_eq!(fields[0], "");
    assert_eq!(fields[1], "argon2id");
    assert_eq!(fields[2], "v=19");
    assert_eq!(fields[3], "m=19456,t=2,p=1");
    // 16 bytes of salt and 32 bytes of output, in B64 without padding.
    assert_eq!(fields[4].len(), 22);
    assert_eq!(fields[5].len(), 43);
    assert!(!hash.contains("S3cret!pw"));
}

#[test]
fn wrong_passwords_do_not_verify() {
    let hash = hash_password_with_salt("Pa55word!", Some(SALT)).unwrap();
    for wrong in ["", "pa55word!", "Pa55word", "Pa55word! ", " Pa55word!", "Pa55word!!", "pässword"] {
        assert_eq!(verify_password(wrong, &hash), Ok(false), "{:?}", wrong);
    }
    assert_eq!(verify_password("Pa55word!", &hash), Ok(true));
}

#[test]
fn distinct_passwords_do_not_verify_against_each_other() {
    let a = hash_password("alpha-ALPHA-1!").unwrap();
    let b = hash_password("bravo-BRAVO-2?").unwrap();
    assert_eq!(verify_password("bravo-BRAVO-2?", &a), Ok(false));
    assert_eq!(verify_password("alpha-ALPHA-1!", &b), Ok(false));
}

#[test]
fn hashing_under_a_given_salt_is_repeatable() {
    let first = hash_password_with_salt("Pa55word!", Some(SALT)).unwrap();
    let second = hash_password_with_salt("Pa55word!", Some(SALT)).unwrap();
    assert_eq!(first, second);
    assert!(first.starts_with("$argon2id$v=19$m=19456,t=2,p=1$c29tZS1zYWx0LWJ5dGVzIQ$"));
    let other = hash_password_with_salt("Pa55word?", Some(SALT)).unwrap();
    assert_ne!(first, other);
}

#[test]
fn missing_salt_is_an_entropy_failure() {
    assert_eq!(hash_password_with_salt("Pa55word!", None), Err(PasswordError::EntropyFailure));
}

#[test]
fn unusable_salt_is_a_hashing_failure() {
    assert_eq!(hash_password_with_salt("Pa55word!", Some("")), Err(PasswordError::Hashing));
    assert_eq!(hash_password_with_salt("Pa55word!", Some("ab")), Err(PasswordError::Hashing));
    assert_eq!(
        hash_password_with_salt("Pa55word!", Some("not base64 at all!")),
        Err(PasswordError::Hashing)
    );
}

#[test]
fn corrupt_hash_is_an_error_and_not_a_wrong_password() {
    for corrupt in ["", "plaintext", "argon2id$v=19$m=19456,t=2,p=1$abcd$efgh", "$", "$argon2id$v=x"] {
        assert_eq!(
            verify_password("whatever", corrupt),
            Err(PasswordError::HashCorrupt),
            "{:?}",
            corrupt
        );
    }
}

#[test]
fn empty_password_can_be_hashed_and_verified() {
    let hash = hash_password_with_salt("", Some(SALT)).unwrap();
    assert_eq!(verify_password("", &hash), Ok(true));
    assert_eq!(verify_password("x", &hash), Ok(false));
}
