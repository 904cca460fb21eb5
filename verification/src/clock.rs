use vstd::prelude::*;

verus! {

/// Relies on chrono's `Utc::now` for the current wall-clock time as
/// milliseconds since the epoch. Nothing is promised of the value: the
/// accounting the relay does with it is proved for every timestamp.
#[verifier::external_body]
pub(crate) fn now_millis() -> (r: i64) {
    chrono::Utc::now().timestamp_millis()
}

} // verus!
