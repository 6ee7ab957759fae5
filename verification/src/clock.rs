//! Wall-clock readings for block timestamps and duration measurement.

use vstd::prelude::*;

verus! {

/// Relies on chrono's `Utc::now` and `DateTime::timestamp`: the current Unix
/// time in whole seconds; nothing is promised of the value.
#[verifier::external_body]
pub fn now_timestamp() -> i64 {
    chrono::Utc::now().timestamp()
}

/// Relies on chrono's `Utc::now` and `DateTime::timestamp_millis`: the
/// current Unix time in milliseconds; nothing is promised of the value.
#[verifier::external_body]
pub fn now_timestamp_millis() -> i64 {
    chrono::Utc::now().timestamp_millis()
}

/// Milliseconds from `start` to `end` on the wall clock, zero when the clock
/// moved backwards.
pub fn elapsed_ms(start: i64, end: i64) -> (r: u64)
    ensures
        r == (if end >= start {
            (end - start) as u64
        } else {
            0u64
        }),
{
    if end >= start {
        ((end as i128) - (start as i128)) as u64
    } else {
        0
    }
}

} // verus!
