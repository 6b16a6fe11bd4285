use api_back_trio::domain::validation::{
    decimal_string, scan_classes, validate_password, CharClasses, PasswordRequirements,
};
use api_back_trio::interfaces::api::dto::post::{NewPost, UpdatePost};
use api_back_trio::interfaces::api::dto::user::{
    same_text, LoginUser, NewUser, RawLoginRequest, UpdateProfile, UpdateUser, UserPublic,
};
use api_back_trio::domain::model::user::{Role, User, UserId};
use api_back_trio::domain::model::Timestamp;
use api_back_trio::interfaces::api::error::ApiError;
use api_back_trio::interfaces::api::validation::{
    check_email, check_length, reject_violations, require_field, require_password, validate_dto,
    Validate, Violation,
};

fn bad_request<T: std::fmt::Debug>(r: Result<T, ApiError>) -> String {
    match r {
        Err(ApiError::BadRequest(m)) => m,
        other => panic!("expected a bad request, got {:?}", other),
    }
}

fn some(s: &str) -> Option<String> {
    Some(s.to_string())
}

#[test]
fn default_requirements() {
    let req = PasswordRequirements::default();
    assert_eq!(
        req,
        PasswordRequirements {
            min_length: 8,
            max_length: 255,
            require_uppercase: true,
            require_lowercase: true,
            require_digit: true,
            require_special_char: true,
        }
    );
}

#[test]
fn password_rules_are_checked_in_order() {
    let req = PasswordRequirements::default();
    let err = |p: &str| validate_password(p, &req).unwrap_err();
    assert_eq!(err(""), "Password must be at least 8 characters long");
    assert_eq!(err("Aa1!"), "Password must be at least 8 characters long");
    assert_eq!(err("Aa1!aaa"), "Password must be at least 8 characters long");
    assert_eq!(err(&"Aa1!".repeat(64)), "Password must be at most 255 characters long");
    assert_eq!(err("aaaaaaaa"), "Password must contain at least one uppercase letter");
    assert_eq!(err("aaaa1111!"), "Password must contain at least one uppercase letter");
    assert_eq!(err("AAAAAAAA"), "Password must contain at least one lowercase letter");
    assert_eq!(err("AAAAaaaa"), "Password must contain at least one digit");
    assert_eq!(err("AAAAaaa1"), "Password must contain at least one special character");
    assert_eq!(err("AAAA aa1"), "Password must contain at least one special character");
    assert_eq!(validate_password("AAAAaa1!", &req), Ok(()));
    assert_eq!(validate_password(&format!("Aa1!{}", "x".repeat(251)), &req), Ok(()));
    assert_eq!(
        err(&format!("Aa1!{}", "x".repeat(252))),
        "Password must be at most 255 characters long"
    );
}

#[test]
fn password_length_counts_bytes() {
    let req = PasswordRequirements::default();
    // Six characters in nine bytes: long enough.
    assert_eq!(validate_password("éééA1!", &req), Ok(()));
    // Five characters in seven bytes: too short.
    assert_eq!(
        validate_password("ééA1!", &req).unwrap_err(),
        "Password must be at least 8 characters long"
    );
    let narrow = PasswordRequirements { max_length: 8, ..req };
    assert_eq!(
        validate_password("éééA1!", &narrow).unwrap_err(),
        "Password must be at most 8 characters long"
    );
}

#[test]
fn password_rules_use_unicode_letters_and_ascii_digits() {
    let req = PasswordRequirements::default();
    // An Arabic-Indic digit is no ASCII digit.
    assert_eq!(
        validate_password("Passwort!٣", &req).unwrap_err(),
        "Password must contain at least one digit"
    );
    // Greek letters count as upper and lower case.
    assert_eq!(validate_password("Σσσσσσ1!", &req), Ok(()));
}

#[test]
fn requirements_can_be_relaxed() {
    let req = PasswordRequirements {
        min_length: 3,
        max_length: 5,
        require_uppercase: false,
        require_lowercase: false,
        require_digit: false,
        require_special_char: false,
    };
    assert_eq!(validate_password("abc", &req), Ok(()));
    assert_eq!(validate_password("     ", &req), Ok(()));
    assert_eq!(
        validate_password("ab", &req).unwrap_err(),
        "Password must be at least 3 characters long"
    );
    assert_eq!(
        validate_password("abcdef", &req).unwrap_err(),
        "Password must be at most 5 characters long"
    );
    let wide = PasswordRequirements { min_length: 1000, max_length: 18446744073709551615, ..req };
    assert_eq!(
        validate_password("x", &wide).unwrap_err(),
        "Password must be at least 1000 characters long"
    );
}

#[test]
fn character_classes_of_a_text() {
    let none = CharClasses { uppercase: false, lowercase: false, digit: false, special: false };
    assert_eq!(scan_classes(""), none);
    assert_eq!(scan_classes(" \t\n"), none);
    assert_eq!(scan_classes("a"), CharClasses { lowercase: true, ..none });
    assert_eq!(scan_classes("A"), CharClasses { uppercase: true, ..none });
    assert_eq!(scan_classes("7"), CharClasses { digit: true, ..none });
    assert_eq!(scan_classes("-"), CharClasses { special: true, ..none });
    assert_eq!(
        scan_classes("aB3$"),
        CharClasses { uppercase: true, lowercase: true, digit: true, special: true }
    );
}

#[test]
fn numbers_in_decimal() {
    assert_eq!(decimal_string(0), "0");
    assert_eq!(decimal_string(7), "7");
    assert_eq!(decimal_string(10), "10");
    assert_eq!(decimal_string(255), "255");
    assert_eq!(decimal_string(1_000_000), "1000000");
    assert_eq!(decimal_string(usize::MAX), usize::MAX.to_string());
}

#[test]
fn required_fields() {
    assert_eq!(require_field(Some(5), "count").unwrap(), 5);
    assert_eq!(bad_request(require_field(None::<u8>, "count")), "count is required");
    assert_eq!(bad_request(require_field(None::<String>, "user_id")), "user_id is required");
}

#[test]
fn required_password() {
    assert_eq!(require_password(some("AAAAaa1!")).unwrap(), "AAAAaa1!");
    assert_eq!(bad_request(require_password(None)), "password is required");
    assert_eq!(
        bad_request(require_password(some("short"))),
        "Password must be at least 8 characters long"
    );
    assert_eq!(
        bad_request(require_password(some("longenough"))),
        "Password must contain at least one uppercase letter"
    );
}

#[test]
fn lengths_count_characters() {
    assert!(check_length("abc", 3, 50));
    assert!(!check_length("ab", 3, 50));
    assert!(check_length("ééé", 3, 3));
    assert!(check_length(&"x".repeat(50), 3, 50));
    assert!(!check_length(&"x".repeat(51), 3, 50));
    assert!(check_length("", 0, 0));
}

#[test]
fn email_addresses() {
    for good in ["a@b.co", "first.last@example.org", "x+tag@sub.example.com", "a@[127.0.0.1]"] {
        assert!(check_email(good), "{}", good);
    }
    for bad in ["", "a", "a@", "@b.co", "a b@c.de", "a@b@c", "a@-b.co", "a@b..co"] {
        assert!(!check_email(bad), "{}", bad);
    }
}

#[test]
fn violations_are_reported_line_by_line() {
    assert!(reject_violations(&vec![]).is_ok());
    let one = vec![Violation { field: "email", message: "Email Invalide" }];
    assert_eq!(bad_request(reject_violations(&one)), "email: Email Invalide");
    let three = vec![
        Violation { field: "a", message: "x" },
        Violation { field: "b", message: "y" },
        Violation { field: "c", message: "z" },
    ];
    assert_eq!(bad_request(reject_violations(&three)), "a: x\nb: y\nc: z");
}

fn new_user() -> NewUser {
    NewUser {
        username: some("alice"),
        password: some("AAAAaa1!"),
        confirm_password: some("AAAAaa1!"),
        email: some("alice@example.org"),
    }
}

#[test]
fn registration_is_validated() {
    assert!(new_user().validate_user().is_ok());
    assert!(new_user().validate().is_ok());
    assert_eq!(
        new_user().validate_and_into_domain().unwrap(),
        ("alice".to_string(), "AAAAaa1!".to_string(), "alice@example.org".to_string())
    );
}

#[test]
fn registration_reports_every_broken_field() {
    let empty = NewUser { username: None, password: None, confirm_password: None, email: None };
    assert_eq!(
        bad_request(empty.validate_user()),
        "username: Username obligatoire\npassword: Password obligatoire\nconfirm_password: Confirm Password obligatoire\nemail: Email obligatoire"
    );
    let short = NewUser { username: some("al"), email: some("nope"), ..new_user() };
    assert_eq!(
        bad_request(short.validate_user()),
        "username: Username must be between 3 and 50 characters\nemail: Email Invalide"
    );
    let long = NewUser { username: Some("x".repeat(51)), ..new_user() };
    assert_eq!(
        bad_request(long.validate_and_into_domain()),
        "username: Username must be between 3 and 50 characters"
    );
    let edge = NewUser { username: Some("x".repeat(50)), ..new_user() };
    assert!(edge.validate_user().is_ok());
}

#[test]
fn registration_checks_the_confirmation_and_the_password() {
    let mismatch = NewUser { confirm_password: some("AAAAaa1?"), ..new_user() };
    assert_eq!(bad_request(mismatch.validate_user()), "Passwords do not match");
    let mismatch = NewUser { confirm_password: some("AAAAaa1?"), ..new_user() };
    assert_eq!(bad_request(mismatch.validate_and_into_domain()), "Passwords must not match");
    let weak = NewUser { password: some("weak"), confirm_password: some("weak"), ..new_user() };
    assert_eq!(
        bad_request(weak.validate_user()),
        "Password must be at least 8 characters long"
    );
    let weak = NewUser { password: some("weakweak"), confirm_password: some("weakweak"), ..new_user() };
    assert_eq!(
        bad_request(weak.validate_and_into_domain()),
        "Password must contain at least one uppercase letter"
    );
}

#[test]
fn update_of_a_user_is_validated() {
    let nothing = || UpdateUser { username: None, password: None, email: None, role: None };
    assert!(nothing().validate_user().is_ok());
    let p = nothing().validate_and_into_domain().unwrap();
    assert_eq!((p.username, p.password, p.email, p.role), (None, None, None, None));
    let all = UpdateUser {
        username: some("bob"),
        password: some("AAAAaa1!"),
        email: some("bob@example.org"),
        role: Some(Role::Admin),
    };
    let p = all.validate_and_into_domain().unwrap();
    assert_eq!(
        (p.username, p.password, p.email, p.role),
        (some("bob"), some("AAAAaa1!"), some("bob@example.org"), Some(Role::Admin))
    );
    let weak = UpdateUser { password: some("weak"), ..nothing() };
    assert_eq!(
        bad_request(weak.validate_user()),
        "Password must be at least 8 characters long"
    );
    let weak = UpdateUser { password: some("weak"), ..nothing() };
    assert_eq!(
        bad_request(weak.validate_and_into_domain()),
        "Password must be at least 8 characters long"
    );
    let bad = UpdateUser { username: some("x"), email: some("x"), ..nothing() };
    assert_eq!(
        bad_request(bad.validate_user()),
        "username: Username must be between 3 and 50 characters\nemail: Email Invalide"
    );
    assert!(nothing().validate().is_ok());
}

#[test]
fn update_of_a_profile_is_validated() {
    let nothing = || UpdateProfile {
        username: None,
        email: None,
        plain_password: None,
        confirm_password: None,
    };
    assert!(nothing().validate_user().is_ok());
    assert!(nothing().validate().is_ok());
    let long_name = UpdateProfile { username: Some("x".repeat(255)), ..nothing() };
    assert!(long_name.validate_user().is_ok());
    let too_long = UpdateProfile { username: Some("x".repeat(256)), ..nothing() };
    assert_eq!(
        bad_request(too_long.validate_user()),
        "username: Username must be between 3 and 255 characters"
    );
    let only_confirmation = UpdateProfile { confirm_password: some("AAAAaa1!"), ..nothing() };
    assert_eq!(bad_request(only_confirmation.validate_user()), "Passwords do not match");
    // Converting looks at the confirmation only where a password is given.
    let only_confirmation = UpdateProfile { confirm_password: some("AAAAaa1!"), ..nothing() };
    let p = only_confirmation.validate_and_into_domain().unwrap();
    assert_eq!((p.password, p.role), (None, None));
    let pair = UpdateProfile {
        plain_password: some("AAAAaa1!"),
        confirm_password: some("AAAAaa1!"),
        username: some("carol"),
        ..nothing()
    };
    let p = pair.validate_and_into_domain().unwrap();
    assert_eq!((p.username, p.password, p.email, p.role), (some("carol"), some("AAAAaa1!"), None, None));
    let mismatch = UpdateProfile {
        plain_password: some("AAAAaa1!"),
        confirm_password: None,
        ..nothing()
    };
    assert_eq!(bad_request(mismatch.validate_and_into_domain()), "Passwords do not match");
    let weak = UpdateProfile {
        plain_password: some("weak"),
        confirm_password: some("weak"),
        ..nothing()
    };
    assert_eq!(
        bad_request(weak.validate_user()),
        "Password must be at least 8 characters long"
    );
}

#[test]
fn login_payload_is_validated() {
    let full = RawLoginRequest { username: some("alice"), password: some("pw") };
    assert!(full.validate_login().is_ok());
    let login = LoginUser::try_from(full).unwrap();
    assert_eq!((login.username.as_str(), login.password.as_str()), ("alice", "pw"));
    let no_password = RawLoginRequest { username: some("alice"), password: None };
    assert_eq!(bad_request(no_password.validate_login()), "password: Password obligatoire");
    let nothing = RawLoginRequest { username: None, password: None };
    assert_eq!(
        bad_request(nothing.validate_login()),
        "username: Username obligatoire\npassword: Password obligatoire"
    );
    let nothing = RawLoginRequest { username: None, password: None };
    assert_eq!(
        bad_request(LoginUser::from_raw(nothing)),
        "username: Username obligatoire\npassword: Password obligatoire"
    );
    let full = RawLoginRequest { username: some("bob"), password: some("pw") };
    assert_eq!(LoginUser::from_raw(full).unwrap().username, "bob");
}

#[test]
fn any_payload_can_be_validated() {
    assert!(validate_dto(&new_user()).is_ok());
    assert!(validate_dto(&new_post()).is_ok());
    let login = RawLoginRequest { username: None, password: some("pw") };
    assert_eq!(bad_request(validate_dto(&login)), "username: Username obligatoire");
    let update = UpdatePost { title: some(""), content: None, published: None, user_id: None };
    assert_eq!(
        bad_request(validate_dto(&update)),
        "title: Title must be between 2 and 255 characters long"
    );
}

#[test]
fn optional_texts_are_compared_by_content() {
    assert!(same_text(&None, &None));
    assert!(same_text(&some("a"), &some("a")));
    assert!(!same_text(&some("a"), &some("b")));
    assert!(!same_text(&some("a"), &None));
    assert!(!same_text(&None, &some("")));
}

#[test]
fn public_part_of_a_user() {
    let t = Timestamp { seconds: 1, nanos: 2 };
    let user = User {
        id: UserId(9),
        username: "dave".to_string(),
        password_hash: "hash".to_string(),
        email: "dave@example.org".to_string(),
        created_at: t,
        updated_at: Some(t),
        role: Role::Admin,
    };
    let public = UserPublic::from(user);
    assert_eq!(public.id, UserId(9));
    assert_eq!(public.username, "dave");
    assert_eq!(public.email, "dave@example.org");
    assert_eq!(public.created_at, t);
}

fn new_post() -> NewPost {
    NewPost {
        title: some("Hello"),
        content: some("World"),
        published: true,
        user_id: Some(UserId(3)),
    }
}

#[test]
fn new_post_is_validated() {
    assert!(new_post().validate_post().is_ok());
    assert_eq!(
        new_post().validate_and_into_domain().unwrap(),
        ("Hello".to_string(), "World".to_string(), true, UserId(3))
    );
    let empty = NewPost { title: None, content: None, published: false, user_id: None };
    assert_eq!(
        bad_request(empty.validate_post()),
        "title: Title is required\ncontent: Content is required\nuser_id: User ID is required"
    );
    let short = NewPost { title: some("x"), content: some("y"), ..new_post() };
    assert_eq!(
        bad_request(short.validate_post()),
        "title: Title must be between 2 and 255 characters long\ncontent: Content must be at least 2 characters long"
    );
    let long = NewPost { title: Some("x".repeat(256)), content: Some("y".repeat(100_000)), ..new_post() };
    assert_eq!(
        bad_request(long.validate_post()),
        "title: Title must be between 2 and 255 characters long"
    );
}

#[test]
fn new_post_names_the_first_missing_field() {
    let no_title = NewPost { title: None, content: None, ..new_post() };
    assert_eq!(bad_request(no_title.validate_and_into_domain()), "title is required");
    let no_content = NewPost { content: None, user_id: None, ..new_post() };
    assert_eq!(bad_request(no_content.validate_and_into_domain()), "content is required");
    let no_author = NewPost { user_id: None, ..new_post() };
    assert_eq!(bad_request(no_author.validate_and_into_domain()), "user_id is required");
    // Lengths are not looked at here.
    let short = NewPost { title: some(""), ..new_post() };
    assert_eq!(short.validate_and_into_domain().unwrap().0, "");
}

#[test]
fn update_of_a_post_is_validated() {
    let nothing = || UpdatePost { title: None, content: None, published: None, user_id: None };
    assert!(nothing().validate_post().is_ok());
    let all = UpdatePost {
        title: some("New title"),
        content: some("New content"),
        published: Some(false),
        user_id: Some(UserId(4)),
    };
    let p = all.validate_and_into_domain().unwrap();
    assert_eq!(
        (p.title, p.content, p.published, p.user_id),
        (some("New title"), some("New content"), Some(false), Some(UserId(4)))
    );
    let bad = UpdatePost { title: some("x"), ..nothing() };
    assert_eq!(
        bad_request(bad.validate_and_into_domain()),
        "title: Title must be between 2 and 255 characters long"
    );
    let bad = UpdatePost { content: some("x"), ..nothing() };
    assert_eq!(
        bad_request(bad.validate_post()),
        "content: Content must be at least 2 characters long"
    );
}
