//! Strict transport security: every response tells the browser to come back
//! over TLS only.

use vstd::prelude::*;

verus! {

/// The name of the header.
pub const STRICT_TRANSPORT_SECURITY: &'static str = "strict-transport-security";

/// The value of the header: one year, subdomains included, fit for preload
/// lists.
pub const HSTS_POLICY: &'static str = "max-age=31536000; includeSubDomains; preload";

/// The factory of the stage that adds the header.
#[derive(Debug, Clone, Copy, PartialEq, Eq, Structural)]
pub struct Hsts;

impl Hsts {
    /// Wraps a service in the stage.
    pub fn new_transform<S>(&self, service: S) -> (r: HstsMiddleware<S>)
        ensures
            r.service == service,
    {
        HstsMiddleware { service }
    }
}

/// A service whose responses get the header.
pub struct HstsMiddleware<S> {
    pub service: S,
}

impl<S> HstsMiddleware<S> {
    /// The header to set on every response of the wrapped service, as name
    /// and value.
    pub fn header(&self) -> (r: (&'static str, &'static str))
        ensures
            r.0@ == STRICT_TRANSPORT_SECURITY@,
            r.1@ == HSTS_POLICY@,
    {
        (STRICT_TRANSPORT_SECURITY, HSTS_POLICY)
    }
}

} // verus!
