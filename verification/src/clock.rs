//! The wall clock.

use vstd::prelude::*;

verus! {

/// The current unix time in seconds.
///
/// Calls `chrono::Utc::now` and `timestamp`. Nothing is claimed of the value.
#[verifier::external_body]
pub(crate) fn unix_now() -> i64 {
    chrono::Utc::now().timestamp()
}

} // verus!
