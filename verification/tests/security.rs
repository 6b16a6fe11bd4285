use api_back_trio::domain::error::DomainError;
use api_back_trio::domain::model::post::check_post_text;
use api_back_trio::infrastructure::security::cors::{
    build_cors, origin_patterns, CorsError, MAX_AGE_SECONDS,
};
use api_back_trio::infrastructure::security::headers::secure_headers;
use api_back_trio::text::{chars_of, str_eq, trim};

#[test]
fn patterns_are_split_and_trimmed() {
    assert_eq!(origin_patterns(""), Vec::<String>::new());
    assert_eq!(origin_patterns(";"), Vec::<String>::new());
    assert_eq!(origin_patterns(" ; \t;;"), Vec::<String>::new());
    assert_eq!(origin_patterns("a"), vec!["a"]);
    assert_eq!(origin_patterns("a;b"), vec!["a", "b"]);
    assert_eq!(origin_patterns(" a ; b "), vec!["a", "b"]);
    assert_eq!(origin_patterns("a;;b;"), vec!["a", "b"]);
    assert_eq!(origin_patterns(";a b ;\n c\u{a0}"), vec!["a b", "c"]);
    assert_eq!(
        origin_patterns("^https://example\\.org$; ^http://localhost:\\d+$"),
        vec!["^https://example\\.org$", "^http://localhost:\\d+$"]
    );
}

#[test]
fn origin_is_allowed_if_a_pattern_matches() {
    let policy = build_cors("^https://example\\.org$; ^http://localhost:\\d+$").unwrap();
    assert_eq!(policy.patterns().len(), 2);
    assert!(policy.allows("https://example.org"));
    assert!(policy.allows("http://localhost:3000"));
    assert!(!policy.allows("https://example.org.evil.com"));
    assert!(!policy.allows("https://exampleXorg"));
    assert!(!policy.allows("http://localhost:"));
    assert!(!policy.allows(""));
}

#[test]
fn unanchored_pattern_matches_anywhere() {
    let policy = build_cors("example").unwrap();
    assert!(policy.allows("https://example.org"));
    assert!(policy.allows("https://not-example.evil"));
    assert!(!policy.allows("https://exampl.org"));
}

#[test]
fn policy_without_patterns_allows_nothing() {
    let policy = build_cors(" ; ").unwrap();
    assert!(policy.patterns().is_empty());
    assert!(!policy.allows("https://example.org"));
    assert!(!policy.allows(""));
}

#[test]
fn invalid_pattern_is_refused_when_the_policy_is_built() {
    match build_cors("^ok$; ( ;[") {
        Err(CorsError::InvalidPattern(p)) => assert_eq!(p, "("),
        Ok(_) => panic!("an invalid pattern was accepted"),
    }
}

#[test]
fn policy_constants() {
    let policy = build_cors("x").unwrap();
    assert_eq!(policy.allowed_methods(), vec!["GET", "POST", "PUT", "DELETE", "OPTIONS"]);
    assert_eq!(
        policy.allowed_headers(),
        vec!["authorization", "content-type", "x-requested-with"]
    );
    assert_eq!(MAX_AGE_SECONDS, 21_600);
}

#[test]
fn security_headers_in_order() {
    assert_eq!(
        secure_headers(),
        vec![
            ("X-Content-Type-Options", "nosniff"),
            ("X-Frame-Options", "DENY"),
            ("Content-Security-Policy", "default-src 'none';"),
            ("Referrer-Policy", "no-referrer"),
            (
                "Permissions-Policy",
                "geolocation=(), microphone=(), camera=(), interest-cohort=()"
            ),
            ("X-Permitted-Cross-Domain-Policies", "none"),
        ]
    );
}

#[test]
fn trimming_and_comparing_texts() {
    assert_eq!(trim(""), "");
    assert_eq!(trim("   "), "");
    assert_eq!(trim(" a "), "a");
    assert_eq!(trim("\t\na b\r\n"), "a b");
    assert_eq!(trim("\u{2003}é\u{a0}"), "é");
    assert_eq!(trim("x"), "x");
    assert_eq!(chars_of("aé "), vec!['a', 'é', ' ']);
    assert!(str_eq("", ""));
    assert!(str_eq("aé", "aé"));
    assert!(!str_eq("a", "b"));
    assert!(!str_eq("a", "ab"));
}

#[test]
fn texts_of_a_post_are_checked() {
    assert!(check_post_text("Title", "Content").is_ok());
    assert!(check_post_text("  abc  ", " x ").is_ok());
    assert!(matches!(check_post_text("", "Content"), Err(DomainError::EmptyContent)));
    assert!(matches!(check_post_text("   ", "Content"), Err(DomainError::EmptyContent)));
    assert!(matches!(check_post_text(" ab ", "Content"), Err(DomainError::InvalidMinLentgthTitle)));
    // One character of two bytes and one of one: three bytes.
    assert!(check_post_text("éa", "Content").is_ok());
    assert!(check_post_text(&"x".repeat(255), "Content").is_ok());
    assert!(matches!(
        check_post_text(&"x".repeat(256), "Content"),
        Err(DomainError::InvalidMaxLentgthTitle)
    ));
    assert!(matches!(check_post_text("Title", ""), Err(DomainError::EmptyContent)));
    assert!(matches!(check_post_text("Title", " \n "), Err(DomainError::EmptyContent)));
    // The title is looked at first.
    assert!(matches!(check_post_text("ab", ""), Err(DomainError::InvalidMinLentgthTitle)));
}
