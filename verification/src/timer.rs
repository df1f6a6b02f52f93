//! The frame timer: when the timer was started and last ticked, and how long
//! frames take.

use vstd::prelude::*;
use std::time::SystemTime;
use std::time::SystemTimeError;
use std::time::Duration;

verus! {

/// `std::time::SystemTime`, a reading of the system clock.
#[verifier::external_type_specification]
#[verifier::external_body]
pub struct ExSystemTime(SystemTime);

/// `std::time::SystemTimeError`, returned when a later reading lies before an
/// earlier one.
#[verifier::external_type_specification]
#[verifier::external_body]
pub struct ExSystemTimeError(SystemTimeError);

/// Reads the system clock with `SystemTime::now`. The reading depends on the
/// time of the call; nothing is stated of it.
#[verifier::external_body]
fn system_time_now() -> (t: SystemTime) {
    SystemTime::now()
}

/// The duration `Duration::new(secs, nanos)` makes: `secs` seconds and
/// `nanos` nanoseconds. It depends on the two numbers alone.
pub uninterp spec fn duration_of(secs: u64, nanos: u32) -> Duration;

/// `Duration::new(secs, nanos)`; it cannot panic when `nanos` is below one
/// second. The result is the named duration of the two numbers.
#[verifier::external_body]
fn duration_new(secs: u64, nanos: u32) -> (d: Duration)
    requires
        nanos < 1_000_000_000,
    ensures
        d == duration_of(secs, nanos),
{
    Duration::new(secs, nanos)
}

/// What `later.duration_since(earlier)` answers for two clock readings: the
/// time from `earlier` to `later`, or an error when `later` lies before
/// `earlier`. It depends on the two readings alone.
pub uninterp spec fn time_since(later: SystemTime, earlier: SystemTime) -> Result<Duration, SystemTimeError>;

/// `later.duration_since(earlier)`; the answer is the named one for the two
/// readings, in that order.
#[verifier::external_body]
fn duration_since(later: &SystemTime, earlier: &SystemTime) -> (r: Result<Duration, SystemTimeError>)
    ensures
        r == time_since(*later, *earlier),
{
    later.duration_since(*earlier)
}

/// What a measurement gives for the clock's answer `r`: the duration when the
/// later reading is not before the earlier one, `None` when the clock went
/// backwards.
pub fn duration_or_none(r: Result<Duration, SystemTimeError>) -> (d: Option<Duration>)
    ensures
        match r {
            Ok(x) => d == Some(x),
            Err(_) => d is None,
        },
{
    match r {
        Ok(x) => Some(x),
        Err(_) => None,
    }
}

/// A frame timer.
pub struct Timer {
    pub start_time: SystemTime,
    pub current_time: SystemTime,
    pub elapse: Duration,
    pub total_time: Duration,
}

impl Timer {
    /// A timer started now, with nothing elapsed: both durations are zero.
    pub fn new() -> (t: Self)
        ensures
            t.elapse == duration_of(0, 0),
            t.total_time == duration_of(0, 0),
    {
        let start_time = system_time_now();
        let current_time = system_time_now();
        Timer {
            start_time,
            current_time,
            elapse: duration_new(0, 0),
            total_time: duration_new(0, 0),
        }
    }

    /// Marks the start of a measurement: `current_time` becomes a fresh
    /// reading (handed to `set_current_time`); nothing else changes.
    pub fn tic(&mut self)
        ensures
            final(self).start_time == old(self).start_time,
            final(self).elapse == old(self).elapse,
            final(self).total_time == old(self).total_time,
    {
        let now = system_time_now();
        self.set_current_time(now);
    }

    /// Makes `now` the reading later measurements start from; nothing else
    /// changes.
    pub fn set_current_time(&mut self, now: SystemTime)
        ensures
            final(self).current_time == now,
            final(self).start_time == old(self).start_time,
            final(self).elapse == old(self).elapse,
            final(self).total_time == old(self).total_time,
    {
        self.current_time = now;
    }

    /// The time since the last `tic` (or since the timer was made): the
    /// clock's answer for a fresh reading measured from `current_time`, or
    /// `None` when the clock went backwards since then. The timer is left as it
    /// is.
    pub fn toc(&mut self) -> (d: Option<Duration>)
        ensures
            *final(self) == *old(self),
            exists|now: SystemTime| (match #[trigger] time_since(now, old(self).current_time) {
                Ok(x) => d == Some(x),
                Err(_) => d is None,
            }),
    {
        let now = system_time_now();
        let r = duration_since(&now, &self.current_time);
        let d = duration_or_none(r);
        assert(match time_since(now, self.current_time) {
            Ok(x) => d == Some(x),
            Err(_) => d is None,
        });
        d
    }
}

} // verus!
