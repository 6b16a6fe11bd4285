//! The authentication guard: from the `Authorization` header of a request to
//! either the identity of the caller or a rejection.
//!
//! The guard is a function of the header, the key material and the time. It
//! keeps no state, so one guard serves any number of requests at once.

use crate::domain::model::user::{Role, UserId};
use crate::infrastructure::auth::{
    checked_claims, decoded_token, verify_token, Claims, TokenError,
};
use crate::infrastructure::security::keys::Keys;
use crate::text::{ok_str_chars, opt_view};
use vstd::prelude::*;
use vstd::string::{StrSliceExecFns, StringExecFns};

verus! {

/// Who makes a request, as established by the authentication guard. It is
/// built once per request and only read afterwards.
#[derive(Debug, Clone, Copy, PartialEq, Eq, Structural)]
pub struct IdentityContext {
    pub user_id: UserId,
    pub role: Role,
}

impl IdentityContext {
    /// The identity that verified claims establish.
    pub open spec fn of(claims: Claims) -> IdentityContext {
        IdentityContext { user_id: claims.sub, role: claims.role }
    }

    /// The identity that verified claims establish.
    pub fn from_claims(claims: &Claims) -> (r: IdentityContext)
        ensures
            r == IdentityContext::of(*claims),
    {
        IdentityContext { user_id: claims.sub, role: claims.role }
    }
}

/// Why a request was rejected. Callers answer all of these alike; the
/// distinction is for diagnostics.
#[derive(Debug, Clone, Copy, PartialEq, Eq, Structural)]
pub enum Reason {
    /// No `Authorization` header.
    MissingCredential,
    /// The header is not `Bearer ` followed by a token.
    MalformedCredential,
    /// The token's signature does not match.
    InvalidSignature,
    /// The token has expired.
    Expired,
    /// The token or its payload is malformed.
    MalformedPayload,
    /// The caller is authenticated but is no admin.
    InsufficientRole,
    /// A role guard ran on a request that no authentication guard had seen.
    MissingContext,
    /// The guard was set up without key material.
    MissingKeys,
}

/// The message of a rejection, as the client reads it.
#[derive(Debug, Clone, Copy, PartialEq, Eq, Structural)]
pub enum ErrorMessage {
    InvalidToken,
    MissingAuthorizationHeader,
    AdminRequired,
}

impl ErrorMessage {
    /// The text of the message.
    pub open spec fn text(self) -> Seq<char> {
        match self {
            ErrorMessage::InvalidToken => "Invalid token"@,
            ErrorMessage::MissingAuthorizationHeader => "Missing Authorization header"@,
            ErrorMessage::AdminRequired => "Forbidden: Admin access required"@,
        }
    }

    /// The text of the message.
    pub fn as_str(&self) -> (r: &'static str)
        ensures
            r@ == self.text(),
    {
        match self {
            ErrorMessage::InvalidToken => "Invalid token",
            ErrorMessage::MissingAuthorizationHeader => "Missing Authorization header",
            ErrorMessage::AdminRequired => "Forbidden: Admin access required",
        }
    }
}

/// The status of a rejection for want of valid credentials.
pub const STATUS_UNAUTHORIZED: u16 = 401;

/// The status of a rejection for want of the admin role.
pub const STATUS_FORBIDDEN: u16 = 403;

/// A rejection: the response that ends the request without running the
/// handler. Its body is the JSON object `{"error": <message>}`.
#[derive(Debug, Clone, Copy, PartialEq, Eq, Structural)]
pub struct Rejection {
    pub status: u16,
    pub message: ErrorMessage,
    pub reason: Reason,
}

/// The JSON body that carries an error message which needs no escaping.
pub open spec fn error_body(message: Seq<char>) -> Seq<char> {
    "{\"error\":\""@ + message + "\"}"@
}

/// Whether a text can stand between the quotes of a JSON string as it is:
/// it holds no quote, no backslash and no control character.
pub open spec fn needs_no_escaping(text: Seq<char>) -> bool {
    forall|i: int|
        0 <= i < text.len() ==> {
            let c = #[trigger] text[i];
            c != '"' && c != '\\' && ' ' <= c && c <= '~'
        }
}

/// Every message of a rejection can stand in the body as it is, so the body
/// is a well-formed JSON object whose `error` is the message.
pub proof fn lemma_messages_need_no_escaping(message: ErrorMessage)
    ensures
        needs_no_escaping(message.text()),
{
    reveal_strlit("Invalid token");
    reveal_strlit("Missing Authorization header");
    reveal_strlit("Forbidden: Admin access required");
}

impl Rejection {
    /// The body of the response.
    pub fn body(&self) -> (r: String)
        ensures
            r@ == error_body(self.message.text()),
    {
        let mut body = "{\"error\":\"".to_owned();
        body.append(self.message.as_str());
        body.append("\"}");
        body
    }
}

/// What a guard decides: go on with the identity of the caller, or end the
/// request with a rejection.
#[derive(Debug, Clone, Copy, PartialEq, Eq, Structural)]
pub enum Outcome {
    Continue(IdentityContext),
    ShortCircuit(Rejection),
}

impl Outcome {
    /// Whether the handler runs.
    pub fn is_continue(&self) -> (r: bool)
        ensures
            r == (*self is Continue),
    {
        match self {
            Outcome::Continue(_) => true,
            Outcome::ShortCircuit(_) => false,
        }
    }
}

/// Why no token could be taken from a request.
#[derive(Debug, Clone, Copy, PartialEq, Eq, Structural)]
pub enum CredentialError {
    /// There is no `Authorization` header.
    Missing,
    /// The header does not hold `Bearer ` and a token.
    Malformed,
}

/// Whether seven characters spell the scheme and its separator: `Bearer` in
/// any casing, then one space.
pub open spec fn is_bearer_scheme(p: Seq<char>) -> bool {
    &&& p.len() == 7
    &&& (p[0] == 'B' || p[0] == 'b')
    &&& (p[1] == 'E' || p[1] == 'e')
    &&& (p[2] == 'A' || p[2] == 'a')
    &&& (p[3] == 'R' || p[3] == 'r')
    &&& (p[4] == 'E' || p[4] == 'e')
    &&& (p[5] == 'R' || p[5] == 'r')
    &&& p[6] == ' '
}

/// The token that a header value presents: everything after the scheme and
/// its separator, provided that something follows them.
pub open spec fn bearer_credential(header: Option<Seq<char>>) -> Result<
    Seq<char>,
    CredentialError,
> {
    match header {
        None => Err(CredentialError::Missing),
        Some(h) => if h.len() > 7 && is_bearer_scheme(h.subrange(0, 7)) {
            Ok(h.subrange(7, h.len() as int))
        } else {
            Err(CredentialError::Malformed)
        },
    }
}

/// Takes the bearer token out of the value of the `Authorization` header.
pub fn extract_bearer<'a>(header: Option<&'a str>) -> (r: Result<&'a str, CredentialError>)
    ensures
        ok_str_chars(r) == bearer_credential(opt_view(header)),
{
    let h = match header {
        None => {
            return Err(CredentialError::Missing);
        },
        Some(h) => h,
    };
    let n = h.unicode_len();
    if n <= 7 {
        return Err(CredentialError::Malformed);
    }
    let c0 = h.get_char(0);
    let c1 = h.get_char(1);
    let c2 = h.get_char(2);
    let c3 = h.get_char(3);
    let c4 = h.get_char(4);
    let c5 = h.get_char(5);
    let c6 = h.get_char(6);
    let scheme = (c0 == 'B' || c0 == 'b') && (c1 == 'E' || c1 == 'e') && (c2 == 'A' || c2 == 'a')
        && (c3 == 'R' || c3 == 'r') && (c4 == 'E' || c4 == 'e') && (c5 == 'R' || c5 == 'r') && c6
        == ' ';
    if scheme {
        Ok(h.substring_char(7, n))
    } else {
        Err(CredentialError::Malformed)
    }
}

/// The reason that a token error gives for a rejection.
pub open spec fn reason_of(e: TokenError) -> Reason {
    match e {
        TokenError::InvalidSignature => Reason::InvalidSignature,
        TokenError::Expired => Reason::Expired,
        TokenError::Malformed => Reason::MalformedPayload,
        TokenError::Signing => Reason::MalformedPayload,
        TokenError::Clock => Reason::MalformedPayload,
    }
}

/// The rejection with status 401 and the message `Invalid token`.
pub open spec fn unauthorized(reason: Reason) -> Outcome {
    Outcome::ShortCircuit(
        Rejection { status: STATUS_UNAUTHORIZED, message: ErrorMessage::InvalidToken, reason },
    )
}

/// What the authentication guard decides on a request: a function of the
/// header, the secret and the time.
pub open spec fn authentication(header: Option<Seq<char>>, secret: Seq<u8>, now: u64) -> Outcome {
    match bearer_credential(header) {
        Err(CredentialError::Missing) => unauthorized(Reason::MissingCredential),
        Err(CredentialError::Malformed) => unauthorized(Reason::MalformedCredential),
        Ok(token) => match checked_claims(decoded_token(token, secret), now) {
            Ok(claims) => Outcome::Continue(IdentityContext::of(claims)),
            Err(e) => unauthorized(reason_of(e)),
        },
    }
}

/// What the guard decides once the token has been looked at: the identity of
/// verified claims, or a 401 for the token's error.
pub open spec fn verdict(verified: Result<Claims, TokenError>) -> Outcome {
    match verified {
        Ok(claims) => Outcome::Continue(IdentityContext::of(claims)),
        Err(e) => unauthorized(reason_of(e)),
    }
}

/// Turns the result of verifying a token into the guard's decision.
pub fn outcome_of(verified: Result<Claims, TokenError>) -> (r: Outcome)
    ensures
        r == verdict(verified),
{
    match verified {
        Ok(claims) => Outcome::Continue(IdentityContext::from_claims(&claims)),
        Err(e) => {
            let reason = match e {
                TokenError::InvalidSignature => Reason::InvalidSignature,
                TokenError::Expired => Reason::Expired,
                TokenError::Malformed => Reason::MalformedPayload,
                TokenError::Signing => Reason::MalformedPayload,
                TokenError::Clock => Reason::MalformedPayload,
            };
            Outcome::ShortCircuit(
                Rejection {
                    status: STATUS_UNAUTHORIZED,
                    message: ErrorMessage::InvalidToken,
                    reason,
                },
            )
        },
    }
}

/// The authentication guard. Extracts the bearer token from the header,
/// verifies it under the key material at the time `now`, and either attaches
/// the caller's identity or rejects with 401. Every rejection ends the
/// request: the handler runs only on `Continue`.
pub fn authenticate(header: Option<&str>, keys: &Keys, now: u64) -> (r: Outcome)
    ensures
        r == authentication(opt_view(header), keys@, now),
{
    match extract_bearer(header) {
        Err(CredentialError::Missing) => Outcome::ShortCircuit(
            Rejection {
                status: STATUS_UNAUTHORIZED,
                message: ErrorMessage::InvalidToken,
                reason: Reason::MissingCredential,
            },
        ),
        Err(CredentialError::Malformed) => Outcome::ShortCircuit(
            Rejection {
                status: STATUS_UNAUTHORIZED,
                message: ErrorMessage::InvalidToken,
                reason: Reason::MalformedCredential,
            },
        ),
        Ok(token) => outcome_of(verify_token(token, keys, now)),
    }
}

/// The guard lets a request through only with a bearer token that verifies;
/// every other request is rejected with status 401 and the message
/// `Invalid token`: one without an `Authorization` header, one whose header
/// does not start with the scheme and a space, one whose header ends right
/// after them, and one whose token does not verify.
pub proof fn lemma_authentication_cases(header: Option<Seq<char>>, secret: Seq<u8>, now: u64)
    ensures
        match header {
            None => authentication(header, secret, now) == unauthorized(Reason::MissingCredential),
            Some(h) => if h.len() > 7 && is_bearer_scheme(h.subrange(0, 7)) {
                let token = h.subrange(7, h.len() as int);
                match checked_claims(decoded_token(token, secret), now) {
                    Ok(claims) => authentication(header, secret, now) == Outcome::Continue(
                        IdentityContext::of(claims),
                    ),
                    Err(e) => authentication(header, secret, now) == unauthorized(reason_of(e)),
                }
            } else {
                authentication(header, secret, now) == unauthorized(Reason::MalformedCredential)
            },
        },
        authentication(header, secret, now) matches Outcome::ShortCircuit(r) ==> r.status == 401
            && r.message.text() == "Invalid token"@,
{
}

/// The factory of the authentication guard.
#[derive(Debug, Clone, Copy, PartialEq, Eq, Structural)]
pub struct JwtMiddleware;

impl JwtMiddleware {
    pub fn new() -> (r: Self)
        ensures
            r == JwtMiddleware,
    {
        JwtMiddleware
    }

    /// Wraps a service in the guard.
    pub fn new_transform<S>(&self, service: S) -> (r: JwtMiddlewareService<S>)
        ensures
            r.service == service,
    {
        JwtMiddlewareService { service }
    }
}

/// A service behind the authentication guard.
pub struct JwtMiddlewareService<S> {
    pub service: S,
}

impl<S> JwtMiddlewareService<S> {
    /// What the guard decides on a request, given the key material the
    /// application was set up with. Without key material every request is
    /// rejected; otherwise the decision is `authenticate`'s. The wrapped
    /// service is to be called only on `Continue`.
    pub fn call(&self, keys: Option<&Keys>, header: Option<&str>, now: u64) -> (r: Outcome)
        ensures
            r == (match keys {
                None => unauthorized(Reason::MissingKeys),
                Some(k) => authentication(opt_view(header), k@, now),
            }),
    {
        match keys {
            None => Outcome::ShortCircuit(
                Rejection {
                    status: STATUS_UNAUTHORIZED,
                    message: ErrorMessage::InvalidToken,
                    reason: Reason::MissingKeys,
                },
            ),
            Some(k) => authenticate(header, k, now),
        }
    }
}

} // verus!
