//! Wall-clock time as a count of nanoseconds since the Unix epoch.

use vstd::prelude::*;

verus! {

/// Nanoseconds in one second.
pub const NANOS_PER_SECOND: i128 = 1_000_000_000;

/// The nanosecond count of a clock reading given as whole seconds and
/// nanoseconds within the second.
pub open spec fn nanos_of(seconds: i64, subsec_nanos: u32) -> int {
    seconds as int * 1_000_000_000 + subsec_nanos as int
}

/// Reads the system clock with `chrono::Utc::now` and hands back the two
/// parts of the reading: `timestamp()`, the whole seconds since the Unix
/// epoch, and `timestamp_subsec_nanos()`.  The reading depends on the
/// machine's clock, so nothing is claimed of it.
#[verifier::external_body]
fn clock_reading() -> (reading: (i64, u32)) {
    let now = chrono::Utc::now();
    (now.timestamp(), now.timestamp_subsec_nanos())
}

/// Puts the two parts of a clock reading together.
pub fn to_nanos(seconds: i64, subsec_nanos: u32) -> (t: i128)
    ensures
        t == nanos_of(seconds, subsec_nanos),
{
    (seconds as i128) * NANOS_PER_SECOND + (subsec_nanos as i128)
}

/// The counts that a clock reading can come to: its whole seconds fit in
/// 64 bits and its nanoseconds in 32.  Nothing narrower holds of every
/// reading.
pub open spec fn is_reading(t: int) -> bool {
    -0x8000_0000_0000_0000 * 1_000_000_000 <= t < 0x8000_0000_0000_0000 * 1_000_000_000
        + 0x1_0000_0000
}

/// The current time: the count that the clock's reading comes to.
/// Whatever the clock says, the count leaves room for any span of time
/// that fits in 64 bits to be added to it.
pub fn now() -> (t: i128)
    ensures
        is_reading(t as int),
{
    let reading = clock_reading();
    to_nanos(reading.0, reading.1)
}

} // verus!
