//! The two clocks of the scheduler: a restartable debounce countdown and a
//! fixed-period pull ticker. Times are milliseconds on a monotonic clock.

use vstd::prelude::*;

verus! {

/// Milliseconds from `now` until `target`, zero once it is reached, capped at
/// the largest `u64`.
pub open spec fn wait_until(now: u64, target: int) -> u64 {
    if target <= now {
        0
    } else if target - now > u64::MAX {
        u64::MAX
    } else {
        (target - now) as u64
    }
}

/// A one-shot countdown of fixed length that can be restarted or cancelled.
#[derive(Clone, Copy, Debug, PartialEq, Eq, Structural)]
pub struct DebounceTimer {
    /// Length of the countdown.
    pub duration: u64,
    /// When the running countdown was started, if one runs.
    pub started: Option<u64>,
}

impl DebounceTimer {
    pub open spec fn is_running(self) -> bool {
        self.started is Some
    }

    /// The running countdown has run its full length by `now`.
    pub open spec fn elapsed_at(self, now: u64) -> bool {
        match self.started {
            Some(t) => now >= t + self.duration,
            None => false,
        }
    }

    pub fn new(duration: u64) -> (r: DebounceTimer)
        ensures
            r.duration == duration,
            r.started is None,
    {
        DebounceTimer { duration, started: None }
    }

    /// Drops any running countdown and starts a full one at `now`.
    pub fn restart(&mut self, now: u64)
        ensures
            *final(self) == (DebounceTimer { started: Some(now), ..*old(self) }),
    {
        self.started = Some(now);
    }

    /// Drops any running countdown; it will never fire.
    pub fn cancel(&mut self)
        ensures
            *final(self) == (DebounceTimer { started: None, ..*old(self) }),
    {
        self.started = None;
    }

    /// Fires, at most once per start: true when the countdown has run out by
    /// `now`, which also stops it; otherwise nothing changes.
    pub fn fire(&mut self, now: u64) -> (r: bool)
        ensures
            r == old(self).elapsed_at(now),
            r ==> *final(self) == (DebounceTimer { started: None, ..*old(self) }),
            !r ==> *final(self) == *old(self),
    {
        match self.started {
            Some(t) => {
                if now >= t && now - t >= self.duration {
                    self.started = None;
                    true
                } else {
                    false
                }
            },
            None => false,
        }
    }

    /// Milliseconds from `now` until the running countdown runs out.
    pub fn remaining(&self, now: u64) -> (r: Option<u64>)
        ensures
            match self.started {
                Some(t) => r == Some(wait_until(now, t + self.duration)),
                None => r is None,
            },
    {
        match self.started {
            Some(t) => {
                if now >= t {
                    let e = now - t;
                    if e >= self.duration {
                        Some(0)
                    } else {
                        Some(self.duration - e)
                    }
                } else {
                    Some((t - now).saturating_add(self.duration))
                }
            },
            None => None,
        }
    }
}

/// A ticker that is due every `period` milliseconds from its origin.
#[derive(Clone, Copy, Debug, PartialEq, Eq, Structural)]
pub struct PullTicker {
    pub period: u64,
    /// The most recent tick already delivered (the origin at first).
    pub last: u64,
}

impl PullTicker {
    pub open spec fn wf(self) -> bool {
        self.period > 0
    }

    /// The next tick has come by `now`.
    pub open spec fn due_at(self, now: u64) -> bool {
        now >= self.last + self.period
    }

    /// The latest tick at or before `now`, on the grid of this ticker.
    pub open spec fn latest_tick(self, now: u64) -> int {
        self.last + ((now - self.last) / (self.period as int)) * self.period
    }

    pub fn new(period: u64, origin: u64) -> (r: PullTicker)
        requires
            period > 0,
        ensures
            r.wf(),
            r.period == period,
            r.last == origin,
    {
        PullTicker { period, last: origin }
    }

    /// Delivers the ticks due by `now`: true when at least one is due. Ticks
    /// that came together are delivered as one; the grid is kept.
    pub fn fire(&mut self, now: u64) -> (r: bool)
        requires
            old(self).wf(),
        ensures
            final(self).wf(),
            final(self).period == old(self).period,
            r == old(self).due_at(now),
            r ==> final(self).last == old(self).latest_tick(now),
            r ==> !final(self).due_at(now),
            !r ==> *final(self) == *old(self),
    {
        if now >= self.last && now - self.last >= self.period {
            let gap = now - self.last;
            let k = gap / self.period;
            let p = self.period;
            proof {
                assert(k * p <= gap) by (nonlinear_arith)
                    requires k == gap / p, p > 0;
                assert(gap < k * p + p) by (nonlinear_arith)
                    requires k == gap / p, p > 0;
            }
            self.last = self.last + k * p;
            true
        } else {
            false
        }
    }

    /// Milliseconds from `now` until the next tick is due.
    pub fn remaining(&self, now: u64) -> (r: u64)
        ensures
            r == wait_until(now, self.last + self.period),
    {
        if now >= self.last {
            let e = now - self.last;
            if e >= self.period {
                0
            } else {
                self.period - e
            }
        } else {
            (self.last - now).saturating_add(self.period)
        }
    }
}

} // verus!
