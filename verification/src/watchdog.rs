//! The watchdog's judgement of how long the main task has been silent.

use vstd::prelude::*;

verus! {

/// How the main task's heartbeat looks.
#[derive(Debug, Clone, Copy, PartialEq, Eq)]
pub enum WatchdogVerdict {
    /// Within half the threshold.
    Healthy,
    /// Past half the threshold: worth a warning.
    Slow,
    /// Past the threshold: stalled.
    Stalled,
}

/// The verdict for a heartbeat `elapsed` nanoseconds old, with an alert
/// threshold of `threshold` nanoseconds.
pub fn judge(elapsed: u128, threshold: u128) -> (r: WatchdogVerdict)
    ensures
        elapsed > threshold ==> r == WatchdogVerdict::Stalled,
        elapsed <= threshold && elapsed > threshold / 2 ==> r == WatchdogVerdict::Slow,
        elapsed <= threshold / 2 ==> r == WatchdogVerdict::Healthy,
{
    if elapsed > threshold {
        WatchdogVerdict::Stalled
    } else if elapsed > threshold / 2 {
        WatchdogVerdict::Slow
    } else {
        WatchdogVerdict::Healthy
    }
}

/// A watchdog's settings, in nanoseconds, and the time of the last
/// heartbeat, in nanoseconds on a monotonic clock.
#[derive(Debug, Clone, Copy, PartialEq, Eq)]
pub struct Watchdog {
    pub check_interval: u128,
    pub alert_threshold: u128,
    pub last_tick: u128,
}

impl Watchdog {
    /// A watchdog whose last heartbeat is at `now`.
    pub fn new(check_interval: u128, alert_threshold: u128, now: u128) -> (r: Self)
        ensures
            r == (Watchdog { check_interval, alert_threshold, last_tick: now }),
    {
        Watchdog { check_interval, alert_threshold, last_tick: now }
    }

    /// Records a heartbeat at `now`.
    pub fn tick(&mut self, now: u128)
        ensures
            *final(self) == (Watchdog { last_tick: now, ..*old(self) }),
    {
        self.last_tick = now;
    }

    /// The verdict at time `now` (not before the last heartbeat).
    pub fn check(&self, now: u128) -> (r: WatchdogVerdict)
        requires
            now >= self.last_tick,
        ensures
            now - self.last_tick > self.alert_threshold ==> r == WatchdogVerdict::Stalled,
            now - self.last_tick <= self.alert_threshold && now - self.last_tick > self.alert_threshold / 2
                ==> r == WatchdogVerdict::Slow,
            now - self.last_tick <= self.alert_threshold / 2 ==> r == WatchdogVerdict::Healthy,
    {
        judge(now - self.last_tick, self.alert_threshold)
    }
}

} // verus!
