//! Authentication: password hashing, signed tokens and the request guards.
//!
//! A token is a compact string of three dot-separated base64url segments:
//! header, payload and signature. The payload is a flat JSON map with the
//! keys `sub` (the user identifier as text), `exp` (Unix seconds) and `role`
//! (`"User"` or `"Admin"`); the signature is HMAC-SHA256 under the process
//! secret.

pub mod admin;
pub mod jwt;
pub mod password;

use crate::domain::model::user::{lemma_role_names_round_trip, Role, UserId};
use crate::domain::model::utc_now;
use crate::infrastructure::auth::jwt::{bearer_credential, extract_bearer};
use crate::infrastructure::security::keys::Keys;
use crate::text::{ok_chars, opt_view};
use vstd::prelude::*;

verus! {

/// How long a token stays valid after it was issued: 24 hours, in seconds.
pub const TOKEN_TTL_SECONDS: u64 = 86_400;

/// The payload of a token: who the subject is, in which role, and until when.
#[derive(Debug, Clone, Copy, PartialEq, Eq, Structural)]
pub struct Claims {
    /// The subject: the user's identifier.
    pub sub: UserId,
    /// The expiry, in seconds since the Unix epoch.
    pub exp: u64,
    /// The subject's role.
    pub role: Role,
}

impl Claims {
    /// The subject of the claims.
    pub fn user_id(&self) -> (r: UserId)
        ensures
            r == self.sub,
    {
        self.sub
    }
}

/// Why claims could not be taken from a request.
#[derive(Debug, Clone, Copy, PartialEq, Eq, Structural)]
pub enum AuthError {
    /// The request carries no bearer token, or there is no key material to
    /// check one with.
    MissingAuth,
    /// The token did not verify.
    InvalidToken,
}

impl AuthError {
    /// The message of the error.
    pub open spec fn message(self) -> Seq<char> {
        match self {
            AuthError::MissingAuth => "Authorization header is missing"@,
            AuthError::InvalidToken => "Invalid or expired token"@,
        }
    }

    /// The message of the error.
    pub fn to_string(&self) -> (r: String)
        ensures
            r@ == self.message(),
    {
        match self {
            AuthError::MissingAuth => "Authorization header is missing".to_owned(),
            AuthError::InvalidToken => "Invalid or expired token".to_owned(),
        }
    }

    /// The HTTP status of the error: 401 for a missing credential as for an
    /// invalid or expired one.
    pub fn status_code(&self) -> (r: u16)
        ensures
            r == 401,
    {
        match self {
            AuthError::MissingAuth => 401,
            AuthError::InvalidToken => 401,
        }
    }
}

/// Why a token was not issued or not accepted.
#[derive(Debug, Clone, Copy, PartialEq, Eq, Structural)]
pub enum TokenError {
    /// The signature does not belong to the header and payload.
    InvalidSignature,
    /// The token or its payload is not of the expected structure.
    Malformed,
    /// The expiry lies in the past.
    Expired,
    /// The token could not be serialized and signed.
    Signing,
    /// The time of issue is out of range: before the epoch, or so late that
    /// the expiry cannot be represented.
    Clock,
}

/// How decoding a token can fail before its claims are looked at.
#[derive(Debug, Clone, Copy, PartialEq, Eq, Structural)]
pub enum DecodeFailure {
    /// The signature does not match.
    Signature,
    /// Anything else: not three segments, bad base64, bad JSON, another
    /// algorithm in the header, no numeric `exp`.
    Malformed,
}

/// The three claims as they stand in a decoded payload, each present only if
/// the payload holds it with the expected JSON type.
#[derive(Debug)]
pub struct RawClaims {
    /// `sub`, if it is a JSON string.
    pub sub: Option<String>,
    /// `exp`, if it is a non-negative JSON integer.
    pub exp: Option<u64>,
    /// `role`, if it is a JSON string.
    pub role: Option<String>,
}

/// `RawClaims` with its strings as characters.
pub struct RawClaimsView {
    pub sub: Option<Seq<char>>,
    pub exp: Option<u64>,
    pub role: Option<Seq<char>>,
}

impl View for RawClaims {
    type V = RawClaimsView;

    open spec fn view(&self) -> RawClaimsView {
        RawClaimsView {
            sub: match self.sub {
                Some(s) => Some(s@),
                None => None,
            },
            exp: self.exp,
            role: match self.role {
                Some(s) => Some(s@),
                None => None,
            },
        }
    }
}

/// A decoding result with its strings as characters.
pub open spec fn decoded_view(d: Result<RawClaims, DecodeFailure>) -> Result<
    RawClaimsView,
    DecodeFailure,
> {
    match d {
        Ok(raw) => Ok(raw@),
        Err(e) => Err(e),
    }
}

/// The token that `jsonwebtoken::encode` builds, with the default header
/// (HS256), for a payload with these three claims and this secret; `None`
/// where it reports an error.
pub uninterp spec fn signed_token(sub: Seq<char>, exp: u64, role: Seq<char>, secret: Seq<u8>)
    -> Option<Seq<char>>;

/// What `jsonwebtoken::decode` makes of a token under a secret, with HS256
/// as the only accepted algorithm and the expiry left unchecked.
pub uninterp spec fn decoded_token(token: Seq<char>, secret: Seq<u8>) -> Result<
    RawClaimsView,
    DecodeFailure,
>;

/// Serializes and signs with `jsonwebtoken::encode`: the default header, a
/// JSON map of the three claims, and `EncodingKey::from_secret`.
///
/// Trusted: the result is the crate's token for these claims and this
/// secret, `None` where the crate reports an error; and decoding that token
/// under the same secret yields the three claims again (the crate verifies
/// the HMAC it has just computed and parses the JSON it has just written).
#[verifier::external_body]
fn jwt_encode(sub: &str, exp: u64, role: &str, secret: &[u8]) -> (r: Option<String>)
    ensures
        match r {
            Some(t) => signed_token(sub@, exp, role@, secret@) == Some(t@) && decoded_token(
                t@,
                secret@,
            ) == Ok::<RawClaimsView, DecodeFailure>(
                RawClaimsView { sub: Some(sub@), exp: Some(exp), role: Some(role@) },
            ),
            None => signed_token(sub@, exp, role@, secret@) is None,
        },
{
    let mut claims = serde_json::Map::new();
    claims.insert("exp".to_owned(), serde_json::Value::from(exp));
    claims.insert("role".to_owned(), serde_json::Value::from(role));
    claims.insert("sub".to_owned(), serde_json::Value::from(sub));
    let key = jsonwebtoken::EncodingKey::from_secret(secret);
    jsonwebtoken::encode(&jsonwebtoken::Header::default(), &claims, &key).ok()
}

/// Verifies and decodes with `jsonwebtoken::decode`, under
/// `DecodingKey::from_secret` and the default validation with the expiry
/// check switched off, so that the result does not depend on the clock.
///
/// Trusted: the result is the crate's reading of the token under the secret.
/// A mismatching signature is `Signature`; every other error of the crate is
/// `Malformed`. On success each of the three claims is present exactly if
/// the payload holds it as a JSON string (`sub`, `role`) or as a
/// non-negative JSON integer (`exp`).
#[verifier::external_body]
fn jwt_decode(token: &str, secret: &[u8]) -> (r: Result<RawClaims, DecodeFailure>)
    ensures
        decoded_view(r) == decoded_token(token@, secret@),
{
    let mut validation = jsonwebtoken::Validation::default();
    validation.validate_exp = false;
    let key = jsonwebtoken::DecodingKey::from_secret(secret);
    match jsonwebtoken::decode::<serde_json::Value>(token, &key, &validation) {
        Ok(data) => Ok(RawClaims {
            sub: data.claims.get("sub").and_then(serde_json::Value::as_str).map(str::to_owned),
            exp: data.claims.get("exp").and_then(serde_json::Value::as_u64),
            role: data.claims.get("role").and_then(serde_json::Value::as_str).map(str::to_owned),
        }),
        Err(e) => match e.kind() {
            jsonwebtoken::errors::ErrorKind::InvalidSignature => Err(DecodeFailure::Signature),
            _ => Err(DecodeFailure::Malformed),
        },
    }
}

/// The claims that a decoded payload states, where all three are present,
/// the subject is an identifier and the role is a role.
pub open spec fn payload_claims(raw: RawClaimsView) -> Option<Claims> {
    match (raw.sub, raw.exp, raw.role) {
        (Some(sub), Some(exp), Some(role)) => match (
            UserId::parsed(sub),
            Role::from_wire_name(role),
        ) {
            (Some(id), Some(r)) => Some(Claims { sub: id, exp: exp, role: r }),
            _ => None,
        },
        _ => None,
    }
}

/// The verdict on a decoded token at the time `now`. The signature decides
/// first, then the structure of the payload, then the expiry: claims whose
/// expiry lies before `now` are `Expired` whatever else holds of them.
pub open spec fn checked_claims(decoded: Result<RawClaimsView, DecodeFailure>, now: u64) -> Result<
    Claims,
    TokenError,
> {
    match decoded {
        Err(DecodeFailure::Signature) => Err(TokenError::InvalidSignature),
        Err(DecodeFailure::Malformed) => Err(TokenError::Malformed),
        Ok(raw) => match payload_claims(raw) {
            None => Err(TokenError::Malformed),
            Some(claims) => if claims.exp < now {
                Err(TokenError::Expired)
            } else {
                Ok(claims)
            },
        },
    }
}

/// The payload that stands for given claims in a token.
pub open spec fn wire_claims(claims: Claims) -> RawClaimsView {
    RawClaimsView {
        sub: Some(claims.sub.text()),
        exp: Some(claims.exp),
        role: Some(claims.role.wire_name()),
    }
}

/// The claims of a token issued at `now`: the subject, the role, and an
/// expiry 24 hours later.
pub open spec fn claims_issued_at(user_id: UserId, role: Role, now: u64) -> Claims
    recommends
        now + TOKEN_TTL_SECONDS <= u64::MAX,
{
    Claims { sub: user_id, exp: (now + TOKEN_TTL_SECONDS) as u64, role: role }
}

/// The token for given claims under a secret, or the signing failure.
pub open spec fn issued_token(claims: Claims, secret: Seq<u8>) -> Result<Seq<char>, TokenError> {
    match signed_token(claims.sub.text(), claims.exp, claims.role.wire_name(), secret) {
        Some(t) => Ok(t),
        None => Err(TokenError::Signing),
    }
}

/// Decides on a decoded token: maps a decoding failure to its error, checks
/// that the payload states well-formed claims, and rejects expired ones.
pub fn claims_from_decoded(decoded: Result<RawClaims, DecodeFailure>, now: u64) -> (r: Result<
    Claims,
    TokenError,
>)
    ensures
        r == checked_claims(decoded_view(decoded), now),
{
    let raw = match decoded {
        Err(DecodeFailure::Signature) => {
            return Err(TokenError::InvalidSignature);
        },
        Err(DecodeFailure::Malformed) => {
            return Err(TokenError::Malformed);
        },
        Ok(raw) => raw,
    };
    let (sub, exp, role) = match (&raw.sub, raw.exp, &raw.role) {
        (Some(sub), Some(exp), Some(role)) => (sub, exp, role),
        _ => {
            return Err(TokenError::Malformed);
        },
    };
    let claims = match (UserId::parse(sub.as_str()), Role::parse_wire_name(role.as_str())) {
        (Some(id), Some(r)) => Claims { sub: id, exp: exp, role: r },
        _ => {
            return Err(TokenError::Malformed);
        },
    };
    if claims.exp < now {
        Err(TokenError::Expired)
    } else {
        Ok(claims)
    }
}

/// Verifies a token under the key material at the time `now` and returns its
/// claims. The result is a function of the token, the secret and `now`.
pub fn verify_token(token: &str, keys: &Keys, now: u64) -> (r: Result<Claims, TokenError>)
    ensures
        r == checked_claims(decoded_token(token@, keys@), now),
{
    claims_from_decoded(jwt_decode(token, keys.secret()), now)
}

/// Verifies a token at the present time of the system clock. Whatever the
/// clock read, the verdict is the one of `verify_token` at some time; a
/// clock that reads a time before the epoch is reported as `Clock`.
pub fn verify_token_now(token: &str, keys: &Keys) -> (r: Result<Claims, TokenError>)
    ensures
        r == Err::<Claims, TokenError>(TokenError::Clock) || exists|now: u64|
            r == #[trigger] checked_claims(decoded_token(token@, keys@), now),
{
    let now = utc_now().seconds;
    if now < 0 {
        return Err(TokenError::Clock);
    }
    let now: u64 = now as u64;
    let r = verify_token(token, keys, now);
    proof {
        assert(r == checked_claims(decoded_token(token@, keys@), now));
    }
    r
}

/// Serializes and signs the given claims. A token that comes back verifies
/// under the same key material to exactly these claims at every time up to
/// and including their expiry, and is `Expired` at every later time.
pub fn issue_token(claims: &Claims, keys: &Keys) -> (r: Result<String, TokenError>)
    ensures
        ok_chars(r) == issued_token(*claims, keys@),
        r matches Ok(t) ==> decoded_token(t@, keys@) == Ok::<RawClaimsView, DecodeFailure>(
            wire_claims(*claims),
        ),
        r matches Ok(t) ==> forall|now: u64|
            #[trigger] checked_claims(decoded_token(t@, keys@), now) == (if now <= claims.exp {
                Ok::<Claims, TokenError>(*claims)
            } else {
                Err::<Claims, TokenError>(TokenError::Expired)
            }),
{
    let sub = claims.sub.to_string();
    let role = claims.role.as_wire_name();
    proof {
        lemma_role_names_round_trip(claims.role);
    }
    match jwt_encode(sub.as_str(), claims.exp, role, keys.secret()) {
        Some(token) => {
            proof {
                assert(payload_claims(wire_claims(*claims)) == Some(*claims));
            }
            Ok(token)
        },
        None => Err(TokenError::Signing),
    }
}

/// Issues a token for `user_id` in `role` at the time `now`, valid for 24
/// hours. The only failures are a `now` so late that the expiry does not fit
/// (`Clock`) and a signing failure.
pub fn create_jwt_token_at(user_id: UserId, role: Role, keys: &Keys, now: u64) -> (r: Result<
    String,
    TokenError,
>)
    ensures
        now + TOKEN_TTL_SECONDS > u64::MAX ==> r == Err::<String, TokenError>(TokenError::Clock),
        now + TOKEN_TTL_SECONDS <= u64::MAX ==> ok_chars(r) == issued_token(
            claims_issued_at(user_id, role, now),
            keys@,
        ),
        r matches Ok(t) ==> checked_claims(decoded_token(t@, keys@), now) == Ok::<
            Claims,
            TokenError,
        >(claims_issued_at(user_id, role, now)),
{
    if now > u64::MAX - TOKEN_TTL_SECONDS {
        return Err(TokenError::Clock);
    }
    let claims = Claims { sub: user_id, exp: now + TOKEN_TTL_SECONDS, role: role };
    issue_token(&claims, keys)
}

/// Whether `token` is what issuing for `user_id` in `role` yields at some
/// time: a token that verifies, at that time, to the subject, the role and
/// an expiry 24 hours later.
pub open spec fn issued_at_some_time(token: Seq<char>, user_id: UserId, role: Role, secret: Seq<u8>)
    -> bool {
    exists|now: u64|
        {
            &&& now + TOKEN_TTL_SECONDS <= u64::MAX
            &&& #[trigger] issued_token(claims_issued_at(user_id, role, now), secret) == Ok::<
                Seq<char>,
                TokenError,
            >(token)
            &&& checked_claims(decoded_token(token, secret), now) == Ok::<Claims, TokenError>(
                claims_issued_at(user_id, role, now),
            )
        }
}

/// Issues a token for `user_id` in `role` at the present time of the system
/// clock. Whatever the clock read, a token that comes back is the one issued
/// at some time `now`, and carries the subject, the role and an expiry 24
/// hours after `now`.
pub fn create_jwt_token(user_id: UserId, role: Role, keys: &Keys) -> (r: Result<String, TokenError>)
    ensures
        r matches Ok(t) ==> issued_at_some_time(t@, user_id, role, keys@),
        r matches Err(e) ==> e == TokenError::Signing || e == TokenError::Clock,
{
    let now = utc_now().seconds;
    if now < 0 {
        return Err(TokenError::Clock);
    }
    let now: u64 = now as u64;
    let r = create_jwt_token_at(user_id, role, keys, now);
    proof {
        if r is Ok {
            assert(issued_token(claims_issued_at(user_id, role, now), keys@) == Ok::<
                Seq<char>,
                TokenError,
            >(r->Ok_0@));
        }
    }
    r
}

/// The claims that a request presents: those of its bearer token, where
/// there is key material, the header holds a token and the token verifies.
pub open spec fn request_claims(secret: Option<Seq<u8>>, header: Option<Seq<char>>, now: u64)
    -> Result<Claims, AuthError> {
    match (secret, bearer_credential(header)) {
        (Some(s), Ok(token)) => match checked_claims(decoded_token(token, s), now) {
            Ok(claims) => Ok(claims),
            Err(_) => Err(AuthError::InvalidToken),
        },
        _ => Err(AuthError::MissingAuth),
    }
}

impl Claims {
    /// Takes the claims of the caller from the `Authorization` header of a
    /// request, for a handler that asks for them.
    pub fn from_request(keys: Option<&Keys>, header: Option<&str>, now: u64) -> (r: Result<
        Claims,
        AuthError,
    >)
        ensures
            r == request_claims(
                match keys {
                    Some(k) => Some(k@),
                    None => None,
                },
                opt_view(header),
                now,
            ),
    {
        match (keys, extract_bearer(header)) {
            (Some(k), Ok(token)) => match verify_token(token, k, now) {
                Ok(claims) => Ok(claims),
                Err(_) => Err(AuthError::InvalidToken),
            },
            _ => Err(AuthError::MissingAuth),
        }
    }
}

/// Round trip: the payload that stands for given claims is read back as
/// exactly those claims at every time up to and including their expiry.
/// `issue_token` promises that decoding a token it has issued yields that
/// payload, so a fresh token verifies to the claims it was issued for.
pub proof fn lemma_issued_claims_verify(claims: Claims, now: u64)
    requires
        UserId::parsed(claims.sub.text()) == Some(claims.sub),
        now <= claims.exp,
    ensures
        checked_claims(Ok(wire_claims(claims)), now) == Ok::<Claims, TokenError>(claims),
{
    lemma_role_names_round_trip(claims.role);
}

/// Claims are issued for the future: a token issued at `now` names the
/// given subject and role, and its expiry lies exactly 24 hours after `now`.
pub proof fn lemma_issued_claims_outlive_issue(user_id: UserId, role: Role, now: u64)
    requires
        now + TOKEN_TTL_SECONDS <= u64::MAX,
    ensures
        claims_issued_at(user_id, role, now).sub == user_id,
        claims_issued_at(user_id, role, now).role == role,
        claims_issued_at(user_id, role, now).exp == now + 86_400,
        claims_issued_at(user_id, role, now).exp > now,
{
}

/// Claims whose expiry lies in the past are never accepted: a payload that
/// states well-formed claims with an expiry before `now` is `Expired`, and
/// since only a token with a valid signature decodes to a payload at all,
/// a valid signature does not help.
pub proof fn lemma_expired_is_rejected(raw: RawClaimsView, now: u64)
    requires
        payload_claims(raw) matches Some(claims) && claims.exp < now,
    ensures
        checked_claims(Ok(raw), now) == Err::<Claims, TokenError>(TokenError::Expired),
{
}

/// Whether a decoded token states well-formed claims, and their expiry.
pub open spec fn stated_expiry(decoded: Result<RawClaimsView, DecodeFailure>) -> Option<u64> {
    match decoded {
        Ok(raw) => match payload_claims(raw) {
            Some(claims) => Some(claims.exp),
            None => None,
        },
        Err(_) => None,
    }
}

/// A token is accepted at `now` exactly if its signature matched, its
/// payload states well-formed claims, and they have not expired. It is
/// `InvalidSignature` exactly if the signature did not match, and `Expired`
/// exactly if well-formed claims under a matching signature have expired.
/// Verification never answers with an error of issuing.
pub proof fn lemma_verdict_cases(decoded: Result<RawClaimsView, DecodeFailure>, now: u64)
    ensures
        (checked_claims(decoded, now) is Ok) == (match stated_expiry(decoded) {
            Some(exp) => exp >= now,
            None => false,
        }),
        (checked_claims(decoded, now) == Err::<Claims, TokenError>(TokenError::InvalidSignature))
            == (decoded == Err::<RawClaimsView, DecodeFailure>(DecodeFailure::Signature)),
        (checked_claims(decoded, now) == Err::<Claims, TokenError>(TokenError::Expired)) == (
        match stated_expiry(decoded) {
            Some(exp) => exp < now,
            None => false,
        }),
        checked_claims(decoded, now) != Err::<Claims, TokenError>(TokenError::Signing),
        checked_claims(decoded, now) != Err::<Claims, TokenError>(TokenError::Clock),
{
}

} // verus!
