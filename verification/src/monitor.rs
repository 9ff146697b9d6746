use vstd::prelude::*;

verus! {

/// One of the two independent interval timers the polling loop drives
/// (logging and screenshots): it fires once its interval, in seconds,
/// has elapsed since the last firing, and rearms itself at the instant
/// it fires.
pub struct IntervalTimer {
    pub last_fire: u64,
    pub interval: u64,
}

impl IntervalTimer {
    /// A timer armed at `now`, firing every `interval` seconds.
    pub fn new(now: u64, interval: u64) -> (t: IntervalTimer)
        ensures
            t.last_fire == now,
            t.interval == interval,
    {
        IntervalTimer { last_fire: now, interval }
    }

    /// Check the timer at time `now` (from a monotonic clock, so never
    /// before the last firing): it is due exactly when the interval has
    /// elapsed, and rearms at `now` when it fires.
    pub fn due(&mut self, now: u64) -> (b: bool)
        requires
            old(self).last_fire <= now,
        ensures
            b == (now - old(self).last_fire >= old(self).interval),
            final(self).interval == old(self).interval,
            final(self).last_fire == if b {
                now
            } else {
                old(self).last_fire
            },
    {
        if now - self.last_fire >= self.interval {
            self.last_fire = now;
            true
        } else {
            false
        }
    }
}

} // verus!
