//! The wall clock.
use vstd::prelude::*;

verus! {

/// Relies on std's `SystemTime::now`, chrono's `From<SystemTime> for
/// DateTime<Utc>` and `DateTime::timestamp_millis`: the current time in
/// milliseconds since the Unix epoch, negative for a clock set before it.
/// Nothing is promised of the value, which depends on the machine's clock.
#[verifier::external_body]
pub(crate) fn current_time_millis() -> (r: i64) {
    chrono::DateTime::<chrono::Utc>::from(std::time::SystemTime::now()).timestamp_millis()
}

} // verus!
