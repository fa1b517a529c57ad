//! The time of day, read with `chrono`.

use crate::types::Timestamp;
use vstd::prelude::*;

verus! {

/// The current time, by `chrono::Utc::now`, as seconds and nanoseconds since
/// the Unix epoch. Nothing is promised of the result: it is whatever the
/// system clock says.
#[verifier::external_body]
pub(crate) fn now() -> Timestamp {
    let now = chrono::Utc::now();
    Timestamp { seconds: now.timestamp(), nanos: now.timestamp_subsec_nanos() }
}

} // verus!
