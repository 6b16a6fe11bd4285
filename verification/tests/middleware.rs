use api_back_trio::domain::model::user::{Role, UserId};
use api_back_trio::infrastructure::auth::admin::{
    admin_after, require_admin, AdminMiddleware, AdminMiddlewareService,
};
use api_back_trio::infrastructure::auth::jwt::{
    authenticate, extract_bearer, outcome_of, CredentialError, ErrorMessage, IdentityContext,
    JwtMiddleware, Outcome, Reason, Rejection,
};
use api_back_trio::infrastructure::auth::{
    create_jwt_token_at, AuthError, Claims, TokenError,
};
use api_back_trio::infrastructure::security::keys::Keys;

const NOW: u64 = 1_700_000_000;
const ID: UserId = UserId(0x550e8400_e29b_41d4_a716_446655440000);

fn keys() -> Keys {
    Keys::new(b"test-secret").unwrap()
}

fn bearer(role: Role, issued: u64) -> String {
    format!("Bearer {}", create_jwt_token_at(ID, role, &keys(), issued).unwrap())
}

fn rejected(status: u16, message: ErrorMessage, reason: Reason) -> Outcome {
    Outcome::ShortCircuit(Rejection { status, message, reason })
}

#[test]
fn bearer_token_is_what_follows_the_scheme() {
    assert_eq!(extract_bearer(Some("Bearer abc.def.ghi")), Ok("abc.def.ghi"));
    assert_eq!(extract_bearer(Some("Bearer x")), Ok("x"));
    assert_eq!(extract_bearer(Some("Bearer  x")), Ok(" x"));
    assert_eq!(extract_bearer(Some("Bearer a b")), Ok("a b"));
    assert_eq!(extract_bearer(Some("Bearer é")), Ok("é"));
}

#[test]
fn bearer_scheme_is_case_insensitive() {
    for header in ["bearer tok", "BEARER tok", "BeArEr tok", "bEARER tok"] {
        assert_eq!(extract_bearer(Some(header)), Ok("tok"), "{}", header);
    }
}

#[test]
fn missing_and_malformed_credentials_are_told_apart() {
    assert_eq!(extract_bearer(None), Err(CredentialError::Missing));
    for header in [
        "",
        "Bearer",
        "Bearer ",
        "Bearer\ttok",
        "Bearertok",
        "Basic dXNlcjpwYXNz",
        "Token abc",
        " Bearer tok",
        "Bear tok",
        "Béarer tok",
        "tok",
    ] {
        assert_eq!(extract_bearer(Some(header)), Err(CredentialError::Malformed), "{:?}", header);
    }
}

#[test]
fn valid_token_attaches_the_identity() {
    for role in [Role::User, Role::Admin] {
        let header = bearer(role, NOW);
        assert_eq!(
            authenticate(Some(&header), &keys(), NOW),
            Outcome::Continue(IdentityContext { user_id: ID, role })
        );
    }
}

#[test]
fn authentication_rejects_with_401_and_says_why() {
    let unauthorized = |reason| rejected(401, ErrorMessage::InvalidToken, reason);
    let k = keys();
    assert_eq!(authenticate(None, &k, NOW), unauthorized(Reason::MissingCredential));
    assert_eq!(
        authenticate(Some("Basic dXNlcjpwYXNz"), &k, NOW),
        unauthorized(Reason::MalformedCredential)
    );
    assert_eq!(authenticate(Some("Bearer "), &k, NOW), unauthorized(Reason::MalformedCredential));
    assert_eq!(
        authenticate(Some("Bearer garbage"), &k, NOW),
        unauthorized(Reason::MalformedPayload)
    );
    assert_eq!(
        authenticate(Some("Bearer aaa.bbb.ccc"), &k, NOW),
        unauthorized(Reason::MalformedPayload)
    );
    let header = bearer(Role::Admin, NOW);
    assert_eq!(
        authenticate(Some(&header), &k, NOW + 86_401),
        unauthorized(Reason::Expired)
    );
    assert_eq!(
        authenticate(Some(&header), &Keys::new(b"other").unwrap(), NOW),
        unauthorized(Reason::InvalidSignature)
    );
}

#[test]
fn unsigned_token_is_rejected() {
    // Header {"alg":"none"}, a well-formed payload, and no signature.
    let header = "Bearer eyJhbGciOiJub25lIn0.eyJleHAiOjE3MDAwODY0MDAsInJvbGUiOiJBZG1pbiIsInN1YiI6IjU1MGU4NDAwLWUyOWItNDFkNC1hNzE2LTQ0NjY1NTQ0MDAwMCJ9.";
    match authenticate(Some(header), &keys(), NOW) {
        Outcome::ShortCircuit(r) => {
            assert_eq!(r.status, 401);
            assert_eq!(r.message, ErrorMessage::InvalidToken);
        }
        Outcome::Continue(_) => panic!("an unsigned token was let through"),
    }
}

#[test]
fn authentication_decides_the_same_twice() {
    let header = bearer(Role::User, NOW);
    let k = keys();
    for h in [None, Some("Bearer x"), Some(header.as_str())] {
        assert_eq!(authenticate(h, &k, NOW), authenticate(h, &k, NOW));
    }
}

#[test]
fn rejection_body_is_a_json_error_object() {
    let r = Rejection {
        status: 401,
        message: ErrorMessage::InvalidToken,
        reason: Reason::Expired,
    };
    assert_eq!(r.body(), r#"{"error":"Invalid token"}"#);
    let parsed: serde_json::Value = serde_json::from_str(&r.body()).unwrap();
    assert_eq!(parsed.get("error").and_then(|v| v.as_str()), Some("Invalid token"));
    let forbidden = Rejection {
        status: 403,
        message: ErrorMessage::AdminRequired,
        reason: Reason::InsufficientRole,
    };
    assert_eq!(forbidden.body(), r#"{"error":"Forbidden: Admin access required"}"#);
    let parsed: serde_json::Value = serde_json::from_str(&forbidden.body()).unwrap();
    assert_eq!(
        parsed.get("error").and_then(|v| v.as_str()),
        Some("Forbidden: Admin access required")
    );
    assert_eq!(ErrorMessage::MissingAuthorizationHeader.as_str(), "Missing Authorization header");
}

#[test]
fn token_errors_map_to_reasons() {
    let reason = |e| match outcome_of(Err(e)) {
        Outcome::ShortCircuit(r) => (r.status, r.reason),
        Outcome::Continue(_) => panic!("an error was let through"),
    };
    assert_eq!(reason(TokenError::InvalidSignature), (401, Reason::InvalidSignature));
    assert_eq!(reason(TokenError::Expired), (401, Reason::Expired));
    assert_eq!(reason(TokenError::Malformed), (401, Reason::MalformedPayload));
    let claims = Claims { sub: ID, exp: 5, role: Role::User };
    assert_eq!(
        outcome_of(Ok(claims)),
        Outcome::Continue(IdentityContext { user_id: ID, role: Role::User })
    );
    assert!(outcome_of(Ok(claims)).is_continue());
    assert!(!outcome_of(Err(TokenError::Expired)).is_continue());
}

#[test]
fn jwt_middleware_needs_key_material() {
    let service = JwtMiddleware::new().new_transform(());
    let header = bearer(Role::User, NOW);
    assert_eq!(
        service.call(None, Some(&header), NOW),
        rejected(401, ErrorMessage::InvalidToken, Reason::MissingKeys)
    );
    assert_eq!(
        service.call(Some(&keys()), Some(&header), NOW),
        Outcome::Continue(IdentityContext { user_id: ID, role: Role::User })
    );
    assert_eq!(
        service.call(Some(&keys()), None, NOW),
        rejected(401, ErrorMessage::InvalidToken, Reason::MissingCredential)
    );
}

#[test]
fn admin_route_rejects_a_user_with_403_and_passes_an_admin() {
    let k = keys();
    let user = authenticate(Some(&bearer(Role::User, NOW)), &k, NOW);
    let admin = authenticate(Some(&bearer(Role::Admin, NOW)), &k, NOW);
    assert_eq!(
        admin_after(user),
        rejected(403, ErrorMessage::AdminRequired, Reason::InsufficientRole)
    );
    assert_eq!(
        admin_after(admin),
        Outcome::Continue(IdentityContext { user_id: ID, role: Role::Admin })
    );
}

#[test]
fn role_guard_reads_the_role_of_the_context() {
    let user = IdentityContext { user_id: ID, role: Role::User };
    let admin = IdentityContext { user_id: ID, role: Role::Admin };
    assert_eq!(
        require_admin(&user),
        rejected(403, ErrorMessage::AdminRequired, Reason::InsufficientRole)
    );
    assert_eq!(require_admin(&admin), Outcome::Continue(admin));
    let service = AdminMiddleware::new().new_transform(());
    assert_eq!(service.guard(Some(&admin)), Outcome::Continue(admin));
    assert_eq!(
        service.guard(Some(&user)),
        rejected(403, ErrorMessage::AdminRequired, Reason::InsufficientRole)
    );
    assert_eq!(
        service.guard(None),
        rejected(401, ErrorMessage::MissingAuthorizationHeader, Reason::MissingContext)
    );
}

#[test]
fn rejection_by_authentication_stands_at_the_role_guard() {
    let k = keys();
    let expired = authenticate(Some(&bearer(Role::Admin, NOW)), &k, NOW + 100_000);
    assert_eq!(expired, rejected(401, ErrorMessage::InvalidToken, Reason::Expired));
    assert_eq!(admin_after(expired), expired);
}

#[test]
fn admin_middleware_on_its_own_authenticates_first() {
    let service: AdminMiddlewareService<()> = AdminMiddleware::default().new_transform(());
    let k = keys();
    let missing = |reason| rejected(401, ErrorMessage::MissingAuthorizationHeader, reason);
    assert_eq!(service.call(Some(&k), None, NOW), missing(Reason::MissingCredential));
    assert_eq!(service.call(Some(&k), Some("Bearer "), NOW), missing(Reason::MalformedCredential));
    assert_eq!(
        service.call(None, Some(&bearer(Role::Admin, NOW)), NOW),
        missing(Reason::MissingKeys)
    );
    assert_eq!(
        service.call(Some(&k), Some("Bearer garbage"), NOW),
        rejected(401, ErrorMessage::InvalidToken, Reason::MalformedPayload)
    );
    assert_eq!(
        service.call(Some(&k), Some(&bearer(Role::Admin, NOW)), NOW + 86_401),
        rejected(401, ErrorMessage::InvalidToken, Reason::Expired)
    );
    assert_eq!(
        service.call(Some(&k), Some(&bearer(Role::User, NOW)), NOW),
        rejected(403, ErrorMessage::AdminRequired, Reason::InsufficientRole)
    );
    assert_eq!(
        service.call(Some(&k), Some(&bearer(Role::Admin, NOW)), NOW),
        Outcome::Continue(IdentityContext { user_id: ID, role: Role::Admin })
    );
}

#[test]
fn claims_of_a_request() {
    let k = keys();
    let header = bearer(Role::User, NOW);
    assert_eq!(
        Claims::from_request(Some(&k), Some(&header), NOW),
        Ok(Claims { sub: ID, exp: NOW + 86_400, role: Role::User })
    );
    assert_eq!(Claims::from_request(Some(&k), None, NOW), Err(AuthError::MissingAuth));
    assert_eq!(Claims::from_request(Some(&k), Some("Basic x"), NOW), Err(AuthError::MissingAuth));
    assert_eq!(Claims::from_request(None, Some(&header), NOW), Err(AuthError::MissingAuth));
    assert_eq!(
        Claims::from_request(Some(&k), Some("Bearer nonsense"), NOW),
        Err(AuthError::InvalidToken)
    );
    assert_eq!(
        Claims::from_request(Some(&k), Some(&header), NOW + 86_401),
        Err(AuthError::InvalidToken)
    );
}

#[test]
fn auth_errors_are_401_with_their_message() {
    assert_eq!(AuthError::MissingAuth.status_code(), 401);
    assert_eq!(AuthError::InvalidToken.status_code(), 401);
    assert_eq!(AuthError::MissingAuth.to_string(), "Authorization header is missing");
    assert_eq!(AuthError::InvalidToken.to_string(), "Invalid or expired token");
}
