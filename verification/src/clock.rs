//! The time of day, for the records that carry a timestamp.

use chrono::Utc;
use vstd::prelude::*;

verus! {

/// Calls `chrono::Utc::now` and takes the `timestamp` of the result: the
/// seconds since the Unix epoch.  Nothing is claimed of the value: it is
/// whatever the machine's clock says.  `now` gives up on a machine whose
/// clock stands before the epoch.
#[verifier::external_body]
pub(crate) fn unix_now() -> i64 {
    Utc::now().timestamp()
}

} // verus!
