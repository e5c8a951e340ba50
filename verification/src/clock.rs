//! The wall clock, read to the nanosecond.
use vstd::prelude::*;

verus! {

/// Calls `chrono::Utc::now` and returns the current time as whole seconds since the
/// Unix epoch (`DateTime::timestamp`) and the nanoseconds within that second
/// (`DateTime::timestamp_subsec_nanos`). Nothing is stated of the values: they are
/// whatever the clock reads.
#[verifier::external_body]
fn now_parts() -> (r: (i64, u32)) {
    let t = chrono::Utc::now();
    (t.timestamp(), t.timestamp_subsec_nanos())
}

/// The current time in nanoseconds since the Unix epoch.
pub(crate) fn now_nanos() -> (r: i128)
    ensures
        i64::MIN * 1_000_000_000 <= r <= i64::MAX * 1_000_000_000 + u32::MAX,
{
    let (secs, nanos) = now_parts();
    secs as i128 * 1_000_000_000 + nanos as i128
}

/// The time `delay_seconds` after `now`, in nanoseconds, held at `i128::MAX` where
/// it would go beyond.
pub open spec fn deadline(now: i128, delay_seconds: u64) -> i128 {
    if now + delay_seconds * 1_000_000_000 > i128::MAX {
        i128::MAX
    } else {
        (now + delay_seconds * 1_000_000_000) as i128
    }
}

/// The time `delay_seconds` after `now`, in nanoseconds.
pub fn add_delay(now: i128, delay_seconds: u64) -> (r: i128)
    ensures
        r == deadline(now, delay_seconds),
{
    let d: i128 = (delay_seconds as i128) * 1_000_000_000;
    if now > i128::MAX - d {
        i128::MAX
    } else {
        now + d
    }
}

} // verus!
