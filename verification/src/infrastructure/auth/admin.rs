//! The role guard of admin-only routes.
//!
//! The guard reads the role from the identity that the authentication guard
//! attached to the request. It takes that identity as its input, so it
//! cannot run on a request that was never authenticated without being told
//! so.

use crate::domain::model::user::Role;
use crate::infrastructure::auth::jwt::{
    authenticate, authentication, bearer_credential, extract_bearer, unauthorized,
    CredentialError, ErrorMessage, IdentityContext, Outcome, Reason, Rejection, STATUS_FORBIDDEN,
    STATUS_UNAUTHORIZED,
};
use crate::infrastructure::security::keys::Keys;
use crate::text::opt_view;
use vstd::prelude::*;

verus! {

/// The rejection of a caller who is no admin: status 403.
pub open spec fn forbidden() -> Outcome {
    Outcome::ShortCircuit(
        Rejection {
            status: STATUS_FORBIDDEN,
            message: ErrorMessage::AdminRequired,
            reason: Reason::InsufficientRole,
        },
    )
}

/// The rejection of a request without credentials at the role guard: status
/// 401 and the message `Missing Authorization header`.
pub open spec fn missing_authorization(reason: Reason) -> Outcome {
    Outcome::ShortCircuit(
        Rejection {
            status: STATUS_UNAUTHORIZED,
            message: ErrorMessage::MissingAuthorizationHeader,
            reason,
        },
    )
}

/// What the role guard decides on an authenticated caller.
pub open spec fn admin_verdict(context: IdentityContext) -> Outcome {
    if context.role == Role::Admin {
        Outcome::Continue(context)
    } else {
        forbidden()
    }
}

/// What the role guard decides on a request, authenticated or not. A request
/// without identity is never let through.
pub open spec fn guard_verdict(context: Option<IdentityContext>) -> Outcome {
    match context {
        Some(c) => admin_verdict(c),
        None => missing_authorization(Reason::MissingContext),
    }
}

/// What an admin-only route decides after the authentication guard has
/// spoken: a rejection stands, an identity goes through the role guard.
pub open spec fn admin_stage(authenticated: Outcome) -> Outcome {
    match authenticated {
        Outcome::Continue(c) => admin_verdict(c),
        Outcome::ShortCircuit(r) => Outcome::ShortCircuit(r),
    }
}

/// The role guard: lets an admin through unchanged and rejects anyone else
/// with 403.
pub fn require_admin(context: &IdentityContext) -> (r: Outcome)
    ensures
        r == admin_verdict(*context),
{
    if context.role.is_admin() {
        Outcome::Continue(*context)
    } else {
        Outcome::ShortCircuit(
            Rejection {
                status: STATUS_FORBIDDEN,
                message: ErrorMessage::AdminRequired,
                reason: Reason::InsufficientRole,
            },
        )
    }
}

/// The role guard as a stage after the authentication guard.
pub fn admin_after(authenticated: Outcome) -> (r: Outcome)
    ensures
        r == admin_stage(authenticated),
{
    match authenticated {
        Outcome::Continue(c) => require_admin(&c),
        Outcome::ShortCircuit(r) => Outcome::ShortCircuit(r),
    }
}

/// What the self-contained admin guard decides on a request: without key
/// material or without a bearer token it answers 401 with
/// `Missing Authorization header`; with a token that does not verify, 401
/// with `Invalid token`; with the token of a caller who is no admin, 403.
pub open spec fn admin_authorization(
    secret: Option<Seq<u8>>,
    header: Option<Seq<char>>,
    now: u64,
) -> Outcome {
    match secret {
        None => missing_authorization(Reason::MissingKeys),
        Some(s) => match bearer_credential(header) {
            Err(CredentialError::Missing) => missing_authorization(Reason::MissingCredential),
            Err(CredentialError::Malformed) => missing_authorization(Reason::MalformedCredential),
            Ok(_) => admin_stage(authentication(header, s, now)),
        },
    }
}

/// The secret of optional key material.
pub open spec fn opt_secret(keys: Option<&Keys>) -> Option<Seq<u8>> {
    match keys {
        Some(k) => Some(k@),
        None => None,
    }
}

/// The factory of the role guard.
#[derive(Debug, Clone, Copy, PartialEq, Eq, Structural)]
pub struct AdminMiddleware;

impl AdminMiddleware {
    pub fn new() -> (r: Self)
        ensures
            r == AdminMiddleware,
    {
        AdminMiddleware
    }

    /// Wraps a service in the guard.
    pub fn new_transform<S>(&self, service: S) -> (r: AdminMiddlewareService<S>)
        ensures
            r.service == service,
    {
        AdminMiddlewareService { service }
    }
}

impl Default for AdminMiddleware {
    fn default() -> (r: Self)
        ensures
            r == AdminMiddleware,
    {
        AdminMiddleware
    }
}

/// A service behind the role guard.
pub struct AdminMiddlewareService<S> {
    pub service: S,
}

impl<S> AdminMiddlewareService<S> {
    /// The guard on a route behind the authentication guard: reads the
    /// role from the identity attached to the request. Where no identity is
    /// attached the guard was set up without authentication, and the request
    /// is rejected with 401. The wrapped service is to be called only on
    /// `Continue`.
    pub fn guard(&self, context: Option<&IdentityContext>) -> (r: Outcome)
        ensures
            r == guard_verdict(
                match context {
                    Some(c) => Some(*c),
                    None => None,
                },
            ),
    {
        match context {
            Some(c) => require_admin(c),
            None => Outcome::ShortCircuit(
                Rejection {
                    status: STATUS_UNAUTHORIZED,
                    message: ErrorMessage::MissingAuthorizationHeader,
                    reason: Reason::MissingContext,
                },
            ),
        }
    }

    /// The guard on a route of its own: authenticates the request from its
    /// header and then checks the role. The wrapped service is to be called
    /// only on `Continue`.
    pub fn call(&self, keys: Option<&Keys>, header: Option<&str>, now: u64) -> (r: Outcome)
        ensures
            r == admin_authorization(opt_secret(keys), opt_view(header), now),
    {
        let k = match keys {
            None => {
                return Outcome::ShortCircuit(
                    Rejection {
                        status: STATUS_UNAUTHORIZED,
                        message: ErrorMessage::MissingAuthorizationHeader,
                        reason: Reason::MissingKeys,
                    },
                );
            },
            Some(k) => k,
        };
        match extract_bearer(header) {
            Err(CredentialError::Missing) => Outcome::ShortCircuit(
                Rejection {
                    status: STATUS_UNAUTHORIZED,
                    message: ErrorMessage::MissingAuthorizationHeader,
                    reason: Reason::MissingCredential,
                },
            ),
            Err(CredentialError::Malformed) => Outcome::ShortCircuit(
                Rejection {
                    status: STATUS_UNAUTHORIZED,
                    message: ErrorMessage::MissingAuthorizationHeader,
                    reason: Reason::MalformedCredential,
                },
            ),
            Ok(_) => admin_after(authenticate(header, k, now)),
        }
    }
}

/// On an admin-only route a request that authenticates is let through
/// exactly if its subject is an admin: a `User` is rejected with 403 and the
/// message `Forbidden: Admin access required`, an `Admin` passes with the
/// identity unchanged. This holds of both forms of the guard.
pub proof fn lemma_admin_route(
    header: Option<Seq<char>>,
    secret: Seq<u8>,
    now: u64,
    context: IdentityContext,
)
    requires
        authentication(header, secret, now) == Outcome::Continue(context),
    ensures
        context.role == Role::Admin ==> admin_stage(authentication(header, secret, now))
            == Outcome::Continue(context),
        context.role == Role::User ==> admin_stage(authentication(header, secret, now))
            == forbidden(),
        admin_authorization(Some(secret), header, now) == admin_stage(
            authentication(header, secret, now),
        ),
        guard_verdict(Some(context)) == admin_stage(authentication(header, secret, now)),
        forbidden() matches Outcome::ShortCircuit(r) && r.status == 403 && r.message.text()
            == "Forbidden: Admin access required"@,
{
}

/// The role guard never lets a request through that carries no identity:
/// it answers 401 and records that authentication was missing.
pub proof fn lemma_guard_needs_identity()
    ensures
        guard_verdict(None) == missing_authorization(Reason::MissingContext),
        guard_verdict(None) matches Outcome::ShortCircuit(r) && r.status == 401,
{
}

/// A rejection by the authentication guard stands at the role guard: nothing
/// after it turns a 401 into a pass.
pub proof fn lemma_rejection_stands(header: Option<Seq<char>>, secret: Seq<u8>, now: u64)
    requires
        authentication(header, secret, now) is ShortCircuit,
    ensures
        admin_stage(authentication(header, secret, now)) == authentication(header, secret, now),
        admin_authorization(Some(secret), header, now) is ShortCircuit,
{
}

} // verus!
