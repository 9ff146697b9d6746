use vstd::prelude::*;
use crate::record::Status;

verus! {

/// Default silence duration, in seconds, after which the session counts
/// as inactive.
pub const DEFAULT_INACTIVITY_THRESHOLD_SECS: u64 = 300;

/// Transient per-session activity state, mutated once per logging tick:
/// the (monotonic, whole-second) time of the last observed activity, and
/// whether the session has already been classified inactive.
pub struct ActivityState {
    pub last_activity: u64,
    pub is_inactive: bool,
}

/// The classification rule, evaluated once per logging tick, in order:
/// any drained events make the tick ACTIVE regardless of elapsed time;
/// otherwise silence of at least the threshold makes it INACTIVE, and
/// shorter silence makes it IDLE.
pub open spec fn classify(total_events: u64, elapsed: int, threshold: u64) -> Status {
    if total_events > 0 {
        Status::Active
    } else if elapsed >= threshold {
        Status::Inactive
    } else {
        Status::Idle
    }
}

/// How one logging tick at time `now` changes the activity state: an
/// active tick resets the silence clock and clears the inactive flag, an
/// inactive tick sets the flag, and an idle tick changes nothing.
pub open spec fn tick_transition(
    pre: ActivityState,
    post: ActivityState,
    total_events: u64,
    now: u64,
    threshold: u64,
    status: Status,
) -> bool {
    let elapsed = now - pre.last_activity;
    &&& status == classify(total_events, elapsed, threshold)
    &&& match status {
        Status::Active => post.last_activity == now && !post.is_inactive,
        Status::Inactive => post.last_activity == pre.last_activity && post.is_inactive,
        Status::Idle => post == pre,
    }
}

impl ActivityState {
    /// A fresh session: the current instant counts as the last activity,
    /// and the session is not inactive.
    pub fn new(now: u64) -> (s: ActivityState)
        ensures
            s.last_activity == now,
            !s.is_inactive,
    {
        ActivityState { last_activity: now, is_inactive: false }
    }

    /// Classify one logging tick from the drained event total and the
    /// current time, and update the state accordingly.  `now` comes from
    /// a monotonic clock, so it never lies before the recorded last
    /// activity.
    pub fn logging_tick(&mut self, total_events: u64, now: u64, threshold: u64) -> (status: Status)
        requires
            old(self).last_activity <= now,
        ensures
            tick_transition(*old(self), *final(self), total_events, now, threshold, status),
    {
        if total_events > 0 {
            self.last_activity = now;
            self.is_inactive = false;
            Status::Active
        } else if now - self.last_activity >= threshold {
            self.is_inactive = true;
            Status::Inactive
        } else {
            Status::Idle
        }
    }

    /// Screenshot capture is suppressed while the session is inactive.
    pub fn screenshots_allowed(&self) -> (b: bool)
        ensures
            b == !self.is_inactive,
    {
        !self.is_inactive
    }
}

/// Window metadata is looked up for active and idle ticks only; an
/// inactive tick leaves the defaults in place.
pub fn window_query_needed(status: Status) -> (b: bool)
    ensures
        b == (status != Status::Inactive),
{
    match status {
        Status::Inactive => false,
        _ => true,
    }
}

/// Law: with no drained events, silence shorter than the threshold is
/// IDLE and silence of at least the threshold is INACTIVE; any drained
/// events are ACTIVE whatever the elapsed time.
pub proof fn lemma_classification(total_events: u64, elapsed: int, threshold: u64)
    ensures
        total_events == 0 && elapsed < threshold ==> classify(total_events, elapsed, threshold)
            == Status::Idle,
        total_events == 0 && elapsed >= threshold ==> classify(total_events, elapsed, threshold)
            == Status::Inactive,
        total_events > 0 ==> classify(total_events, elapsed, threshold) == Status::Active,
{
}

} // verus!
