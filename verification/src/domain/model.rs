//! The entities the backend stores and hands out.

pub mod post;
pub mod user;

use vstd::prelude::*;

verus! {

/// A point in time: seconds since the Unix epoch and the nanoseconds within
/// the second.
#[derive(Debug, Clone, Copy, PartialEq, Eq, Structural)]
pub struct Timestamp {
    pub seconds: i64,
    pub nanos: u32,
}

/// Reads the clock with `chrono::Utc::now()` and takes the time apart with
/// `timestamp` and `timestamp_subsec_nanos`.
///
/// Trusted: nothing is claimed of the result, which is the time of the call.
#[verifier::external_body]
pub(crate) fn utc_now() -> (r: Timestamp) {
    let now = chrono::Utc::now();
    Timestamp { seconds: now.timestamp(), nanos: now.timestamp_subsec_nanos() }
}

} // verus!
