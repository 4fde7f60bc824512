//! The wall clock.
use vstd::prelude::*;

verus! {

/// Calls `chrono::Utc::now().timestamp()`: the seconds since the epoch on
/// this machine's clock. Nothing is claimed of the value. The call panics
/// on a machine whose clock stands before the epoch.
#[verifier::external_body]
pub(crate) fn unix_timestamp() -> (seconds: i64) {
    chrono::Utc::now().timestamp()
}

} // verus!
