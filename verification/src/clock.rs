//! The time of day.

use crate::public_stream::unwrap_or_zero;
use vstd::prelude::*;

verus! {

/// Milliseconds since 1970: `timestamp_millis` of `chrono::Utc::now`. Nothing is promised of the
/// value.
#[verifier::external_body]
pub(crate) fn now_millis() -> (r: i64) {
    chrono::Utc::now().timestamp_millis()
}

/// Nanoseconds since 1970: `timestamp_nanos_opt` of `chrono::Utc::now`, which gives none where
/// they do not fit. Nothing is promised of the value.
#[verifier::external_body]
fn now_nanos_if_they_fit() -> (r: Option<i64>) {
    chrono::Utc::now().timestamp_nanos_opt()
}

/// Nanoseconds since 1970, or zero where they do not fit: what [`unwrap_or_zero`] makes of the
/// clock. Nothing is promised of the value.
pub(crate) fn now_nanos() -> (r: i64) {
    unwrap_or_zero(now_nanos_if_they_fit())
}

} // verus!
