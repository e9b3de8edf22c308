//! The system clock, read through `chrono`.

use vstd::prelude::*;

verus! {

/// Today's date in UTC as `chrono` renders it with `%Y-%m-%d`: `Utc::now`,
/// then `DateTime::format`. The text depends on the clock, so nothing is
/// claimed of it. `Utc::now` gives up where the clock reads a time before 1970.
#[verifier::external_body]
pub(crate) fn today_utc() -> String {
    chrono::Utc::now().format("%Y-%m-%d").to_string()
}

/// The milliseconds since the Unix epoch by `chrono`: `Utc::now`, then
/// `DateTime::timestamp_millis`. The number depends on the clock, so nothing
/// is claimed of it. `Utc::now` gives up where the clock reads a time before 1970.
#[verifier::external_body]
pub(crate) fn now_millis() -> i64 {
    chrono::Utc::now().timestamp_millis()
}

} // verus!
