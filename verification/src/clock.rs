//! The process clock, read through a trusted boundary.

use vstd::prelude::*;

verus! {

/// Relies on chrono::Utc::now: the number of non-leap seconds since the Unix
/// epoch at the moment of the call. The result depends on the wall clock, so
/// nothing is promised of it; callers state what holds for every reading.
#[verifier::external_body]
pub(crate) fn now_seconds() -> i64 {
    chrono::Utc::now().timestamp()
}

} // verus!
