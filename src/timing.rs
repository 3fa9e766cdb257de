//! Tick durations derived from the configured rates, and the clock.
use vstd::prelude::*;

verus! {

/// Nanoseconds in one second.
pub const NANOS_PER_SEC: u64 = 1_000_000_000;

/// Settings for the game loop behavior.
#[derive(Clone, Copy, Debug, PartialEq, Eq)]
pub struct GameIteratorSettings {
    /// The number of updates per second (UPS).
    pub updates_per_second: u64,
    /// The maximum number of frames per second (FPS target).
    pub max_frames_per_second: u64,
}

impl GameIteratorSettings {
    /// Both rates are positive, so that tick durations can be derived.
    pub open spec fn valid(&self) -> bool {
        self.updates_per_second > 0 && self.max_frames_per_second > 0
    }
}

/// The length of one tick, in whole nanoseconds, at `rate` ticks per second.
pub open spec fn spec_interval_ns(rate: u64) -> u64
    recommends
        rate > 0,
{
    (NANOS_PER_SEC / rate) as u64
}

/// The moment one `interval` after `last`, held at `u64::MAX` when it would
/// pass the end of the clock's range.
pub open spec fn spec_next_tick(last: u64, interval: u64) -> u64 {
    if last + interval > u64::MAX {
        u64::MAX
    } else {
        (last + interval) as u64
    }
}

/// The length of one tick at `rate` ticks per second.
pub fn interval_ns(rate: u64) -> (r: u64)
    requires
        rate > 0,
    ensures
        r == spec_interval_ns(rate),
        r <= NANOS_PER_SEC,
{
    NANOS_PER_SEC / rate
}

/// The moment that the tick after `last` is due.
pub fn next_tick(last: u64, interval: u64) -> (r: u64)
    ensures
        r == spec_next_tick(last, interval),
        last <= r,
{
    last.saturating_add(interval)
}

/// The render extrapolation: time elapsed from the last logic update to `now`.
pub fn extrapolation_ns(now: u64, last_update: u64) -> (r: u64)
    requires
        last_update <= now,
    ensures
        r == now - last_update,
{
    now - last_update
}

/// Relies on `time::precise_time_ns`: a reading of a high-resolution counter,
/// in nanoseconds since an unspecified epoch. Nothing is promised of the value.
#[verifier::external_body]
pub(crate) fn precise_time_ns() -> (r: u64) {
    time::precise_time_ns()
}

} // verus!
