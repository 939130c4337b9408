use vstd::prelude::*;

verus! {

/// Relies on chrono's `Utc::now` and `DateTime::timestamp_micros`: the current
/// time in microseconds since the Unix epoch. Nothing is known of its value.
#[verifier::external_body]
pub(crate) fn current_time() -> (r: i64) {
    chrono::Utc::now().timestamp_micros()
}

} // verus!
