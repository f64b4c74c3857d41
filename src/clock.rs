//! The wall clock, as milliseconds since the Unix epoch.

use vstd::prelude::*;

verus! {

/// Relies on chrono's `From<SystemTime> for DateTime<Utc>` (which also takes
/// instants before 1970) and `DateTime::timestamp_millis`: the current UTC
/// instant as whole milliseconds since the Unix epoch. Nothing is promised of
/// the value itself.
#[verifier::external_body]
pub(crate) fn now_millis() -> (r: i64) {
    chrono::DateTime::<chrono::Utc>::from(std::time::SystemTime::now()).timestamp_millis()
}

} // verus!
