//! The wall clock, in whole seconds.

use std::time::{Duration, SystemTime, SystemTimeError, UNIX_EPOCH};
use vstd::prelude::*;

verus! {

/// An instant of the system's clock.
#[verifier::external_type_specification]
#[verifier::external_body]
pub struct ExSystemTime(std::time::SystemTime);

/// How far an instant lies before another one that was taken for earlier.
#[verifier::external_type_specification]
#[verifier::external_body]
pub struct ExSystemTimeError(std::time::SystemTimeError);

/// What `Duration::as_secs` returns: the whole seconds of a duration.
pub uninterp spec fn whole_seconds(duration: Duration) -> u64;

/// The whole seconds from the Unix epoch to an instant; negative for an instant
/// before the epoch.
pub uninterp spec fn seconds_since_epoch(instant: SystemTime) -> int;

/// `Duration::as_secs` returns the whole seconds of a duration.
pub assume_specification[ Duration::as_secs ](duration: &Duration) -> (seconds: u64)
    ensures
        seconds == whole_seconds(*duration),
;

/// `Duration::from_secs` makes the duration of so many whole seconds.
pub assume_specification[ Duration::from_secs ](seconds: u64) -> (duration: Duration)
    ensures
        whole_seconds(duration) == seconds,
;

/// `SystemTime::now` reads the clock. Nothing is said of which instant it is.
pub assume_specification[ SystemTime::now ]() -> SystemTime;

/// `SystemTime::duration_since` the Unix epoch: the time that passed since
/// then, or an error for an instant before it.
#[verifier::external_body]
fn since_epoch(instant: &SystemTime) -> (passed: Result<Duration, SystemTimeError>)
    ensures
        match passed {
            Ok(d) => seconds_since_epoch(*instant) == whole_seconds(d),
            Err(_) => seconds_since_epoch(*instant) < 0,
        },
{
    instant.duration_since(UNIX_EPOCH)
}

/// The Unix timestamp of an instant: the whole seconds since the epoch, and 0
/// for an instant before it.
pub open spec fn timestamp(instant: SystemTime) -> int {
    if seconds_since_epoch(instant) < 0 {
        0
    } else {
        seconds_since_epoch(instant)
    }
}

/// Whether the clock shows this Unix timestamp at some instant.
pub open spec fn is_reading(seconds: u64) -> bool {
    exists|instant: SystemTime| seconds == #[trigger] timestamp(instant)
}

/// A stretch of time, from one Unix timestamp until another one.
pub struct Period {
    pub from: u64,
    pub until: u64,
}

impl Period {
    /// Whether a Unix timestamp lies in the period.
    pub open spec fn has(self, seconds: u64) -> bool {
        self.from <= seconds <= self.until
    }

    /// The shortest period with all of this one and of the other one.
    pub open spec fn join(self, other: Period) -> Period {
        Period {
            from: if self.from < other.from {
                self.from
            } else {
                other.from
            },
            until: if self.until < other.until {
                other.until
            } else {
                self.until
            },
        }
    }
}

/// The Unix timestamp of `instant`; 0 for an instant before the epoch.
pub fn unix_timestamp(instant: &SystemTime) -> (seconds: u64)
    ensures
        seconds == timestamp(*instant),
{
    match since_epoch(instant) {
        Ok(passed) => passed.as_secs(),
        Err(_) => 0,
    }
}

/// The current Unix timestamp: that of the instant at which the clock is read.
pub fn now_unix() -> (seconds: u64)
    ensures
        is_reading(seconds),
{
    let now = SystemTime::now();
    unix_timestamp(&now)
}

} // verus!
