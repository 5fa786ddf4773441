//! A countdown timer driven by per-tick time deltas.
//!
//! Durations and elapsed time are whole milliseconds. Advancing by `dt`
//! accumulates elapsed time; the timer is finished once the accumulated time
//! reaches the duration. A one-shot timer stays finished until it is reset;
//! a repeating timer restarts on the first advance after finishing. A zero or
//! negative `dt` is a no-op tick.

use vstd::prelude::*;

verus! {

#[derive(Clone, Copy, PartialEq, Eq, Structural, Debug)]
pub struct Timer {
    /// Length of one cycle, in milliseconds. May be changed between cycles.
    pub duration: i64,
    /// Time accumulated in the current cycle, in milliseconds.
    pub elapsed: i64,
    /// True exactly while the current cycle is complete.
    pub finished: bool,
    /// A one-shot timer stays finished until reset; a repeating one restarts.
    pub one_shot: bool,
}

impl Timer {
    /// Elapsed time never runs past the duration, and `finished` mirrors
    /// whether it has reached the duration.
    pub open spec fn wf(self) -> bool {
        &&& 1 <= self.duration
        &&& 0 <= self.elapsed <= self.duration
        &&& (self.finished <==> self.elapsed == self.duration)
    }

    /// The state after advancing by `dt` milliseconds.
    pub open spec fn spec_tick(self, dt: int) -> Timer {
        if dt <= 0 {
            self
        } else if self.finished && self.one_shot {
            self
        } else {
            let start: int = if self.finished { 0 } else { self.elapsed as int };
            if start + dt >= self.duration {
                Timer {
                    duration: self.duration,
                    elapsed: self.duration,
                    finished: true,
                    one_shot: self.one_shot,
                }
            } else {
                Timer {
                    duration: self.duration,
                    elapsed: (start + dt) as i64,
                    finished: false,
                    one_shot: self.one_shot,
                }
            }
        }
    }

    /// The state after a reset: a fresh, unfinished cycle of the same duration.
    pub open spec fn spec_reset(self) -> Timer {
        Timer { duration: self.duration, elapsed: 0, finished: false, one_shot: self.one_shot }
    }

    /// Advancing preserves well-formedness.
    pub proof fn lemma_spec_tick_wf(self, dt: int)
        requires
            self.wf(),
        ensures
            self.spec_tick(dt).wf(),
    {
    }

    pub fn new(duration: i64, one_shot: bool) -> (t: Timer)
        requires
            1 <= duration,
        ensures
            t == (Timer { duration: duration, elapsed: 0, finished: false, one_shot: one_shot }),
            t.wf(),
    {
        Timer { duration: duration, elapsed: 0, finished: false, one_shot: one_shot }
    }

    /// Advance by `dt` milliseconds; `dt <= 0` leaves the timer unchanged.
    pub fn tick(&mut self, dt: i64)
        requires
            old(self).wf(),
        ensures
            final(self).wf(),
            *final(self) == old(self).spec_tick(dt as int),
    {
        if dt <= 0 {
            return;
        }
        if self.finished {
            if self.one_shot {
                return;
            }
            self.elapsed = 0;
            self.finished = false;
        }
        let remaining: i64 = self.duration - self.elapsed;
        if dt >= remaining {
            self.elapsed = self.duration;
            self.finished = true;
        } else {
            self.elapsed = self.elapsed + dt;
        }
    }

    /// Clear `finished` and start a fresh cycle.
    pub fn reset(&mut self)
        requires
            old(self).wf(),
        ensures
            final(self).wf(),
            *final(self) == old(self).spec_reset(),
    {
        self.elapsed = 0;
        self.finished = false;
    }

    /// Change the cycle length; takes effect on the running cycle, so the
    /// new duration must still lie ahead of the elapsed time.
    pub fn set_duration(&mut self, duration: i64)
        requires
            old(self).wf(),
            !old(self).finished,
            old(self).elapsed < duration,
        ensures
            final(self).wf(),
            *final(self) == (Timer {
                duration: duration,
                elapsed: old(self).elapsed,
                finished: false,
                one_shot: old(self).one_shot,
            }),
    {
        self.duration = duration;
    }
}

} // verus!
