//! The wall clock, read in whole milliseconds since the Unix epoch.

use std::time::{Duration, SystemTime, SystemTimeError};
use vstd::prelude::*;

verus! {

/// `std::time::SystemTime`, a reading of the system clock, carried through
/// as an opaque value.
#[verifier::external_type_specification]
#[verifier::external_body]
pub struct ExSystemTime(SystemTime);

/// `std::time::SystemTimeError`, the error of a reading that lies before the
/// instant it is measured from. Nothing is read from it.
#[verifier::external_type_specification]
#[verifier::external_body]
pub struct ExSystemTimeError(SystemTimeError);

/// `SystemTime::now`: the current reading of the system clock. Nothing is
/// claimed of the value; two readings may differ in either direction.
#[verifier::external_body]
fn system_now() -> (t: SystemTime) {
    SystemTime::now()
}

/// `SystemTime::duration_since`, measured from `UNIX_EPOCH`. The call fails
/// when the reading lies before the epoch. Nothing is claimed of the result.
#[verifier::external_body]
fn since_unix_epoch(t: &SystemTime) -> (r: Result<Duration, SystemTimeError>) {
    t.duration_since(std::time::UNIX_EPOCH)
}

/// The whole seconds that a duration holds: what `Duration::as_secs` returns
/// for it.
pub uninterp spec fn duration_secs(d: Duration) -> u64;

/// The part of a duration below one second, in nanoseconds: what
/// `Duration::subsec_nanos` returns for it.
pub uninterp spec fn duration_subsec_nanos(d: Duration) -> u32;

/// `Duration::as_secs`: the whole seconds of a duration, which depend on the
/// duration alone.
pub assume_specification[ Duration::as_secs ](d: &Duration) -> (secs: u64)
    ensures
        secs == duration_secs(*d),
;

/// `Duration::subsec_nanos`: the fractional part of a duration in nanoseconds,
/// which depends on the duration alone and is always less than one second.
pub assume_specification[ Duration::subsec_nanos ](d: &Duration) -> (nanos: u32)
    ensures
        nanos == duration_subsec_nanos(*d),
        nanos < 1_000_000_000,
;

/// The number of whole milliseconds in `secs` seconds and `nanos` nanoseconds,
/// clamped to what a `u64` holds.
pub open spec fn millis_of_spec(secs: u64, nanos: u32) -> int {
    let total = secs * 1000 + nanos / 1_000_000;
    if total > u64::MAX {
        u64::MAX as int
    } else {
        total
    }
}

/// Whole milliseconds in a duration given as seconds and nanoseconds. A
/// duration too long for a `u64` of milliseconds reads as `u64::MAX`.
pub fn millis_of(secs: u64, nanos: u32) -> (ms: u64)
    ensures
        ms == millis_of_spec(secs, nanos),
{
    let total: u128 = (secs as u128) * 1000 + ((nanos / 1_000_000) as u128);
    if total > (u64::MAX as u128) {
        u64::MAX
    } else {
        total as u64
    }
}

/// The whole milliseconds that a duration holds, clamped to what a `u64`
/// holds.
pub open spec fn duration_millis(d: Duration) -> int {
    millis_of_spec(duration_secs(d), duration_subsec_nanos(d))
}

/// A duration with no fewer seconds, and with no fewer nanoseconds where the
/// seconds are equal, has no fewer milliseconds: while the clock does not go
/// back, neither do the instants read from it.
pub proof fn millis_keep_order(secs: u64, nanos: u32, later_secs: u64, later_nanos: u32)
    requires
        nanos < 1_000_000_000,
        later_nanos < 1_000_000_000,
        secs < later_secs || (secs == later_secs && nanos <= later_nanos),
    ensures
        millis_of_spec(secs, nanos) <= millis_of_spec(later_secs, later_nanos),
{
}

/// The milliseconds in a reading of the clock that was measured from the
/// Unix epoch: the seconds of the duration times a thousand, plus the whole
/// milliseconds of its fraction. A reading that failed, because the clock
/// shows an instant before the epoch, gives `None`: no instant is made up
/// for it.
pub fn millis_of_reading(reading: Result<Duration, SystemTimeError>) -> (ms: Option<u64>)
    ensures
        ms is None <==> reading is Err,
        reading matches Ok(d) ==> ms matches Some(v) && v == duration_millis(d),
{
    match reading {
        Ok(d) => Some(millis_of(d.as_secs(), d.subsec_nanos())),
        Err(_) => None,
    }
}

/// Milliseconds since the Unix epoch according to the system clock, or `None`
/// when the clock cannot be read as such: it shows an instant before the
/// epoch. Which instant comes back depends on the moment of the call; it is
/// always the milliseconds of some duration.
pub(crate) fn time_ms() -> (ms: Option<u64>)
    ensures
        ms matches Some(v) ==> exists|d: Duration| v == #[trigger] duration_millis(d),
{
    let t = system_now();
    millis_of_reading(since_unix_epoch(&t))
}

} // verus!
