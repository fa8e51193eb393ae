//! The wall-clock sample that record identities are minted from.

use vstd::prelude::*;

verus! {

/// Relies on `chrono::Utc::now` and `chrono::DateTime::timestamp_nanos_opt`:
/// nanoseconds since the Unix epoch when that fits an `i64`, and 0 otherwise.
/// Nothing is promised of the reading itself; callers must hold for every
/// value that could come back.
#[verifier::external_body]
pub(crate) fn now_timestamp_nanos() -> i64 {
    chrono::Utc::now().timestamp_nanos_opt().unwrap_or_default()
}

} // verus!
