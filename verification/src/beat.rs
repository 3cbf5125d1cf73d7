//! The per-player beat clock: a repeating interval timer against which every
//! key press is timed.
//!
//! Time is carried as plain `u64` milliseconds; the host converts its own
//! duration type at the boundary.

use vstd::prelude::*;

verus! {

/// A repeating interval timer. `elapsed` is the time since the last beat
/// boundary and always stays below `interval`; `tick` reports at most one
/// boundary crossing per call, however large the time step was.
pub struct BeatTimer {
    /// Beat period in milliseconds; always positive.
    pub interval: u64,
    /// Milliseconds since the last beat boundary; always below `interval`.
    pub elapsed: u64,
}

/// Whether advancing `t` by `delta` milliseconds crosses a beat boundary.
pub open spec fn spec_fires(t: BeatTimer, delta: int) -> bool {
    t.elapsed + delta >= t.interval
}

/// The phase of `t` after advancing it by `delta` milliseconds.
pub open spec fn spec_elapsed_after(t: BeatTimer, delta: int) -> int {
    if spec_fires(t, delta) {
        (t.elapsed + delta) % (t.interval as int)
    } else {
        t.elapsed + delta
    }
}

impl BeatTimer {
    /// The clock invariant: a positive period, and a phase inside it.
    pub open spec fn wf(&self) -> bool {
        0 < self.interval && self.elapsed < self.interval
    }

    /// A fresh clock at phase zero.
    pub fn new(interval: u64) -> (t: BeatTimer)
        requires
            0 < interval,
        ensures
            t.wf(),
            t.interval == interval,
            t.elapsed == 0,
    {
        BeatTimer { interval, elapsed: 0 }
    }

    /// Advances the clock by `delta` milliseconds. Returns `true` exactly
    /// when a beat boundary was crossed; the phase then wraps. A step that
    /// skips several whole periods still reports a single firing.
    pub fn tick(&mut self, delta: u64) -> (fired: bool)
        requires
            old(self).wf(),
            old(self).elapsed + delta <= u64::MAX,
        ensures
            final(self).wf(),
            final(self).interval == old(self).interval,
            fired == spec_fires(*old(self), delta as int),
            final(self).elapsed == spec_elapsed_after(*old(self), delta as int),
    {
        let total: u64 = self.elapsed + delta;
        if total >= self.interval {
            self.elapsed = total % self.interval;
            assert(self.elapsed < self.interval) by {
                vstd::arithmetic::div_mod::lemma_mod_bound(
                    total as int,
                    self.interval as int,
                );
            }
            true
        } else {
            self.elapsed = total;
            false
        }
    }

    /// Milliseconds left until the next beat boundary.
    pub fn remaining(&self) -> (r: u64)
        requires
            self.wf(),
        ensures
            r == self.interval - self.elapsed,
    {
        self.interval - self.elapsed
    }
}

} // verus!
