//! Randomness for sequence rerolls.
//!
//! Rerolling is written against a small source trait, so the game draws from
//! the process-wide generator while tests inject a scripted source and stay
//! deterministic.

use vstd::prelude::*;

verus! {

/// A source of random draws. Nothing about the distribution is promised;
/// every draw lands inside the asked half-open range.
pub trait RandomSource {
    /// Draws one value in `[lo, hi)`.
    fn next_in_range(&mut self, lo: i32, hi: i32) -> (r: i32)
        requires
            lo < hi,
        ensures
            lo <= r < hi,
    ;
}

/// Relies on `rand::Rng::gen_range` on the thread-local generator: returns a
/// value inside the given half-open range, and panics only on an empty range,
/// which the precondition rules out.
#[verifier::external_body]
fn draw_in_range(lo: i32, hi: i32) -> (r: i32)
    requires
        lo < hi,
    ensures
        lo <= r < hi,
{
    rand::Rng::gen_range(&mut rand::thread_rng(), lo..hi)
}

/// The process-wide generator.
pub struct ThreadRandom {}

impl RandomSource for ThreadRandom {
    fn next_in_range(&mut self, lo: i32, hi: i32) -> (r: i32) {
        draw_in_range(lo, hi)
    }
}

/// A scripted source: hands out the listed values in order, then the low
/// bound once they run out. A value outside the asked range is replaced by
/// the low bound, so the range promise holds of any script.
pub struct ScriptedRandom {
    pub vals: Vec<i32>,
    pub next: usize,
}

impl ScriptedRandom {
    pub fn new(vals: Vec<i32>) -> (s: ScriptedRandom)
        ensures
            s.vals == vals,
            s.next == 0,
    {
        ScriptedRandom { vals, next: 0 }
    }
}

impl RandomSource for ScriptedRandom {
    fn next_in_range(&mut self, lo: i32, hi: i32) -> (r: i32) {
        let v: i32 = if self.next < self.vals.len() {
            let v = self.vals[self.next];
            self.next = self.next + 1;
            v
        } else {
            lo
        };
        if lo <= v && v < hi {
            v
        } else {
            lo
        }
    }
}

} // verus!
