//! The two environment-dependent inputs of the session machinery: the
//! current time and fresh session identifiers. Both come from the host
//! clock, so their values are never assumed; every function that depends on
//! them takes the value as an argument and is verified for all of them.

use vstd::prelude::*;

verus! {

/// Relies on chrono::Utc::now: seconds since the Unix epoch by the host's
/// wall clock. Nothing is assumed of the value; callers handle every i64.
#[verifier::external_body]
pub fn current_epoch_seconds() -> i64 {
    chrono::Utc::now().timestamp()
}

/// Relies on chrono::Utc::now: the identifier is the current instant printed
/// at nanosecond precision. The value depends on the clock, so nothing is
/// assumed beyond nonemptiness; freshness across calls is a property of the
/// clock, not a verified fact.
#[verifier::external_body]
pub fn generate_session_id() -> (r: String)
    ensures
        r@.len() > 0,
{
    format!("{:?}", chrono::Utc::now())
}

} // verus!
