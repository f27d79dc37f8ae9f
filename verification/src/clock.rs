use vstd::prelude::*;

verus! {

/// Relies on chrono::Utc::now and DateTime::timestamp_millis: the current
/// wall-clock time as milliseconds since the Unix epoch. The value depends
/// on when the call is made, so nothing is promised about it.
#[verifier::external_body]
pub fn now_millis() -> u64 {
    chrono::Utc::now().timestamp_millis() as u64
}

/// Relies on chrono::Utc::now and DateTime::format with "%Y%m%d": the
/// current date as digits. The value depends on when the call is made,
/// so nothing is promised about it.
#[verifier::external_body]
pub fn today_yyyymmdd() -> String {
    chrono::Utc::now().format("%Y%m%d").to_string()
}

} // verus!
