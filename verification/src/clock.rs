//! The system clock.

use vstd::prelude::*;

verus! {

/// The current time in whole seconds since the epoch.
///
/// Reads the system clock with `std::time::SystemTime::now`, turns the
/// reading into a `chrono::DateTime<Utc>` by chrono's conversion from a
/// `SystemTime`, and takes its `timestamp`. A clock that reads a time before
/// the epoch gives a negative count. Nothing is claimed of the value: it is
/// whatever the system clock says.
#[verifier::external_body]
pub(crate) fn unix_now() -> (now: i64) {
    chrono::DateTime::<chrono::Utc>::from(std::time::SystemTime::now()).timestamp()
}

} // verus!
