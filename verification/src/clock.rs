//! The time of day.

use crate::model::Timestamp;
use vstd::prelude::*;

verus! {

/// Calls `chrono::Utc::now` and `DateTime::timestamp`: the seconds that the
/// machine's clock counts since the Unix epoch. Nothing is promised of the
/// number. On a machine whose clock is set before 1970 the call panics.
#[verifier::external_body]
pub(crate) fn unix_now() -> (r: Timestamp) {
    chrono::Utc::now().timestamp()
}

} // verus!
