//! Helpers for exercising the burner: an index that changes with the clock.

use std::time::{Duration, SystemTime, SystemTimeError};
use vstd::prelude::*;

verus! {

#[verifier::external_type_specification]
#[verifier::external_body]
pub struct ExSystemTime(SystemTime);

#[verifier::external_type_specification]
#[verifier::external_body]
pub struct ExSystemTimeError(SystemTimeError);

/// `SystemTime::now` reads the system clock; nothing is known of what it
/// returns.
pub assume_specification[ SystemTime::now ]() -> (t: SystemTime)
;

/// `SystemTime::duration_since` fails when `earlier` is in fact later;
/// nothing more is claimed.
pub assume_specification[ SystemTime::duration_since ](
    t: &SystemTime,
    earlier: SystemTime,
) -> (r: Result<Duration, SystemTimeError>)
;

/// `Duration::as_secs` gives the whole seconds of a duration.
pub assume_specification[ Duration::as_secs ](d: &Duration) -> (s: u64)
;

/// Hands out the constant `SystemTime::UNIX_EPOCH`, the instant that clock
/// readings are counted from.
#[verifier::external_body]
fn unix_epoch() -> (t: SystemTime) {
    SystemTime::UNIX_EPOCH
}

/// The index that a clock reading of `secs` seconds picks out of `range`.
pub open spec fn index_at(secs: u64, range: u64) -> usize {
    (secs % range) as usize
}

/// The index that a clock reading of `secs` seconds picks out of `range`
/// slots: the remainder of the division.
pub fn rand_at(secs: u64, range: u64) -> (r: usize)
    requires
        range > 0,
    ensures
        r == index_at(secs, range),
        range <= usize::MAX ==> r < range,
{
    (secs % range) as usize
}

/// An index below `range` that changes from second to second: the system
/// clock's seconds since the Unix epoch, modulo `range`. A clock set before
/// the epoch counts as zero seconds.
pub fn psuedo_rand(range: u64) -> (r: usize)
    requires
        range > 0,
    ensures
        exists|secs: u64| r == #[trigger] index_at(secs, range),
        range <= usize::MAX ==> r < range,
{
    let now = SystemTime::now();
    let secs: u64 = match now.duration_since(unix_epoch()) {
        Ok(elapsed) => elapsed.as_secs(),
        Err(_) => 0,
    };
    rand_at(secs, range)
}

} // verus!
