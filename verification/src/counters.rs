use vstd::prelude::*;

verus! {

/// Counts of raw input events accumulated between two logging ticks.
///
/// Keystrokes and mouse-equivalent events (moves, wheel turns, button
/// presses) are kept in two independent counters.  Each counter grows by
/// one per recorded event, wrapping on overflow, and `drain` hands the
/// accumulated totals to the caller while resetting both counters to zero.
pub struct EventCounters {
    pub keystrokes: u64,
    pub mouse_events: u64,
}

/// Relation between the counter state before a drain, the state after it,
/// and the two returned totals.
pub open spec fn drained(
    pre: EventCounters,
    post: EventCounters,
    keys: u64,
    mice: u64,
) -> bool {
    &&& keys == pre.keystrokes
    &&& mice == pre.mouse_events
    &&& post.keystrokes == 0
    &&& post.mouse_events == 0
}

impl EventCounters {
    /// Fresh counters, with nothing recorded yet.
    pub fn new() -> (c: EventCounters)
        ensures
            c.keystrokes == 0,
            c.mouse_events == 0,
    {
        EventCounters { keystrokes: 0, mouse_events: 0 }
    }

    /// Record one keystroke.  The count wraps around at `u64::MAX`.
    pub fn record_keystroke(&mut self)
        ensures
            final(self).keystrokes == if old(self).keystrokes == u64::MAX {
                0
            } else {
                old(self).keystrokes + 1
            },
            final(self).mouse_events == old(self).mouse_events,
    {
        if self.keystrokes == u64::MAX {
            self.keystrokes = 0;
        } else {
            self.keystrokes = self.keystrokes + 1;
        }
    }

    /// Record one mouse-equivalent event.  The count wraps around at
    /// `u64::MAX`.
    pub fn record_mouse_event(&mut self)
        ensures
            final(self).mouse_events == if old(self).mouse_events == u64::MAX {
                0
            } else {
                old(self).mouse_events + 1
            },
            final(self).keystrokes == old(self).keystrokes,
    {
        if self.mouse_events == u64::MAX {
            self.mouse_events = 0;
        } else {
            self.mouse_events = self.mouse_events + 1;
        }
    }

    /// Read both totals and reset them to zero in one step; the returned
    /// pair is (keystrokes, mouse events) accumulated since the previous
    /// drain.
    pub fn drain(&mut self) -> (r: (u64, u64))
        ensures
            drained(*old(self), *final(self), r.0, r.1),
    {
        let keys = self.keystrokes;
        let mice = self.mouse_events;
        self.keystrokes = 0;
        self.mouse_events = 0;
        (keys, mice)
    }
}

/// Law: a drain leaves both counters at zero, so a second drain with no
/// intervening recorded event returns zero for both totals.
pub proof fn lemma_double_drain(
    c0: EventCounters,
    c1: EventCounters,
    k1: u64,
    m1: u64,
    c2: EventCounters,
    k2: u64,
    m2: u64,
)
    requires
        drained(c0, c1, k1, m1),
        drained(c1, c2, k2, m2),
    ensures
        k2 == 0,
        m2 == 0,
{
}

} // verus!
