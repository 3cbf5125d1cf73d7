//! Decision logic for the ring-shaped controller: turning the stream of raw
//! flex/squat samples into discrete input events.
//!
//! The native driver binding itself stays in the host; it hands each polled
//! sample over as plain values, and everything decided from them — the flex
//! thresholds, the edge detection, and the squat duty-cycle window — lives
//! here.

use vstd::prelude::*;

use crate::beat::BeatTimer;
use crate::events::{PlayerCommand, PlayerCommandEvent};

verus! {

/// Flex value at or above which a sample reads as a push.
pub const PUSHING_THRESHOLD: i32 = 7;

/// Flex value at or below which a sample reads as a pull.
pub const PULLING_THRESHOLD: i32 = 2;

/// Milliseconds between polls of the driver.
pub const POLL_INTERVAL: u64 = 33;

/// Length in milliseconds of one squat-detection window.
pub const SQUAT_WINDOW: u64 = 500;

/// One sample polled from the driver, as plain values.
#[derive(PartialEq, Eq, Structural, Copy, Clone, Debug)]
pub struct PullVal {
    pub running: bool,
    pub squatting: bool,
    pub push_val: i32,
}

/// A discrete input event recognised from the sample stream.
#[derive(PartialEq, Eq, Structural, Copy, Clone, Debug)]
pub enum RingConEvent {
    Push,
    Pull,
    Squat,
}

/// Where squat detection stands: outside a window, measuring one, or done
/// measuring with the squat confirmed. `Done` is resolved the moment it is
/// reached, so it is never the stored state between calls.
#[derive(PartialEq, Eq, Structural, Copy, Clone, Debug)]
pub enum SquattingStates {
    No,
    Doing,
    Done,
}

impl Default for SquattingStates {
    /// Detection starts outside any window.
    fn default() -> (s: SquattingStates)
        ensures
            s == SquattingStates::No,
    {
        SquattingStates::No
    }
}

/// The command a recognised ring event stands for: the ring drives side 1,
/// with push, pull and squat taking the three keys in order.
pub open spec fn spec_ring_command(ev: RingConEvent) -> PlayerCommandEvent {
    match ev {
        RingConEvent::Push => PlayerCommandEvent { team: 1, cmd: PlayerCommand::Hit1 },
        RingConEvent::Pull => PlayerCommandEvent { team: 1, cmd: PlayerCommand::Hit2 },
        RingConEvent::Squat => PlayerCommandEvent { team: 1, cmd: PlayerCommand::Hit3 },
    }
}

/// Turns a recognised ring event into the logical command it stands for.
pub fn command_for_ring_event(ev: &RingConEvent) -> (r: PlayerCommandEvent)
    ensures
        r == spec_ring_command(*ev),
{
    match ev {
        RingConEvent::Push => PlayerCommandEvent { team: 1, cmd: PlayerCommand::Hit1 },
        RingConEvent::Pull => PlayerCommandEvent { team: 1, cmd: PlayerCommand::Hit2 },
        RingConEvent::Squat => PlayerCommandEvent { team: 1, cmd: PlayerCommand::Hit3 },
    }
}

/// How one flex sample reads: a push at or above the pushing threshold, a
/// pull at or below the pulling threshold, nothing in between.
pub open spec fn spec_classify(push_val: i32) -> Option<RingConEvent> {
    if push_val >= PUSHING_THRESHOLD {
        Some(RingConEvent::Push)
    } else if push_val <= PULLING_THRESHOLD {
        Some(RingConEvent::Pull)
    } else {
        None
    }
}

/// The squat counters after one frame of accounting: while a window is
/// being measured, every frame counts, and the squatting ones separately.
pub open spec fn squat_counts_after(
    stat: SquattingStates,
    sq: int,
    nsq: int,
    squatting: bool,
) -> (int, int) {
    if stat == SquattingStates::Doing {
        (
            sq + if squatting {
                1int
            } else {
                0int
            },
            nsq + 1,
        )
    } else {
        (sq, nsq)
    }
}

/// Whether at least half of a window's frames saw a squat. An empty window
/// never qualifies.
pub open spec fn squat_duty_met(sq: int, nsq: int) -> bool {
    nsq > 0 && 2 * sq >= nsq
}

/// The controller-side state machine: a poll pacing clock, the last flex
/// reading for edge detection, and the squat-window bookkeeping.
pub struct RingConState {
    /// Paces the driver polls.
    pub poll_timer: BeatTimer,
    /// Paces the squat-window resolutions.
    pub squat_timer: BeatTimer,
    /// How the previous poll's flex value read, for edge detection.
    pub ring_stat: Option<RingConEvent>,
    /// Where squat detection stands.
    pub stat: SquattingStates,
    /// Frames of the current window that saw a squat.
    pub squat_frames: u64,
    /// Frames observed in the current window.
    pub total_frames: u64,
}

/// Classifies one flex reading against the two thresholds.
pub fn classify_pull(push_val: i32) -> (r: Option<RingConEvent>)
    ensures
        r == spec_classify(push_val),
{
    if push_val >= PUSHING_THRESHOLD {
        Some(RingConEvent::Push)
    } else if push_val <= PULLING_THRESHOLD {
        Some(RingConEvent::Pull)
    } else {
        None
    }
}

impl RingConState {
    /// The machine invariant: running clocks, squat counters that fit their
    /// window, and no lingering `Done`.
    pub open spec fn wf(&self) -> bool {
        &&& self.poll_timer.wf()
        &&& self.squat_timer.wf()
        &&& self.squat_frames <= self.total_frames
        &&& self.stat != SquattingStates::Done
    }

    /// A fresh machine with the canonical pacing.
    pub fn new() -> (s: RingConState)
        ensures
            s.wf(),
            s.poll_timer.interval == POLL_INTERVAL,
            s.poll_timer.elapsed == 0,
            s.squat_timer.interval == SQUAT_WINDOW,
            s.squat_timer.elapsed == 0,
            s.ring_stat is None,
            s.stat == SquattingStates::No,
            s.squat_frames == 0,
            s.total_frames == 0,
    {
        RingConState {
            poll_timer: BeatTimer::new(POLL_INTERVAL),
            squat_timer: BeatTimer::new(SQUAT_WINDOW),
            ring_stat: None,
            stat: SquattingStates::No,
            squat_frames: 0,
            total_frames: 0,
        }
    }

    /// Advances the poll pacing clock; `true` asks the host to poll the
    /// driver now.
    pub fn poll_due(&mut self, delta: u64) -> (due: bool)
        requires
            old(self).wf(),
            old(self).poll_timer.elapsed + delta <= u64::MAX,
        ensures
            final(self).wf(),
            final(self).squat_timer == old(self).squat_timer,
            final(self).ring_stat == old(self).ring_stat,
            final(self).stat == old(self).stat,
            final(self).squat_frames == old(self).squat_frames,
            final(self).total_frames == old(self).total_frames,
            final(self).poll_timer.interval == old(self).poll_timer.interval,
            due == (old(self).poll_timer.elapsed + delta >= old(self).poll_timer.interval),
            !due ==> final(self).poll_timer.elapsed == old(self).poll_timer.elapsed + delta,
    {
        self.poll_timer.tick(delta)
    }

    /// Takes one polled flex reading. The reading becomes the stored state,
    /// and an event comes back exactly when a push or pull is seen that the
    /// previous poll did not show: holding the ring flexed fires only once.
    pub fn on_sample(&mut self, sample: &PullVal) -> (ev: Option<RingConEvent>)
        requires
            old(self).wf(),
        ensures
            final(self).wf(),
            final(self).poll_timer == old(self).poll_timer,
            final(self).squat_timer == old(self).squat_timer,
            final(self).stat == old(self).stat,
            final(self).squat_frames == old(self).squat_frames,
            final(self).total_frames == old(self).total_frames,
            final(self).ring_stat == spec_classify(sample.push_val),
            ev == (match (spec_classify(sample.push_val), old(self).ring_stat) {
                (Some(k), Some(k2)) => if k2 != k {
                    Some(k)
                } else {
                    None
                },
                (Some(k), None) => Some(k),
                (None, _) => None::<RingConEvent>,
            }),
    {
        let detected = classify_pull(sample.push_val);
        let ev: Option<RingConEvent> = match (detected, self.ring_stat) {
            (Some(k), Some(k2)) => if k2 != k {
                Some(k)
            } else {
                None
            },
            (Some(k), None) => Some(k),
            (None, _) => None,
        };
        self.ring_stat = detected;
        ev
    }

    /// One frame of squat detection: accounts the frame to the current
    /// window, and when the window clock rounds off, resolves it. A window
    /// that saw squatting in at least half of its frames fires one `Squat`
    /// event; afterwards — or whenever squatting shows outside a window — a
    /// fresh window begins.
    pub fn squat_tick(&mut self, delta: u64, squatting: bool) -> (ev: Option<RingConEvent>)
        requires
            old(self).wf(),
            old(self).total_frames < u64::MAX,
            old(self).squat_timer.elapsed + delta <= u64::MAX,
        ensures
            final(self).wf(),
            final(self).poll_timer == old(self).poll_timer,
            final(self).ring_stat == old(self).ring_stat,
            final(self).squat_timer.interval == old(self).squat_timer.interval,
            ({
                let (sq1, nsq1) = squat_counts_after(
                    old(self).stat,
                    old(self).squat_frames as int,
                    old(self).total_frames as int,
                    squatting,
                );
                let fired = old(self).squat_timer.elapsed + delta
                    >= old(self).squat_timer.interval;
                &&& !fired ==> {
                    &&& ev is None
                    &&& final(self).stat == old(self).stat
                    &&& final(self).squat_frames == sq1
                    &&& final(self).total_frames == nsq1
                    &&& final(self).squat_timer.elapsed == old(self).squat_timer.elapsed + delta
                }
                &&& fired ==> {
                    &&& final(self).squat_timer.elapsed == (old(self).squat_timer.elapsed
                        + delta) % (old(self).squat_timer.interval as int)
                    &&& if old(self).stat == SquattingStates::Doing && squat_duty_met(
                        sq1,
                        nsq1,
                    ) {
                        &&& ev == Some(RingConEvent::Squat)
                        &&& final(self).stat == SquattingStates::No
                        &&& final(self).squat_frames == 0
                        &&& final(self).total_frames == 0
                    } else if squatting {
                        &&& ev is None
                        &&& final(self).stat == SquattingStates::Doing
                        &&& final(self).squat_frames == 0
                        &&& final(self).total_frames == 0
                    } else {
                        &&& ev is None
                        &&& final(self).stat == SquattingStates::No
                        &&& final(self).squat_frames == sq1
                        &&& final(self).total_frames == nsq1
                    }
                }
            }),
    {
        if self.stat == SquattingStates::Doing {
            if squatting {
                self.squat_frames = self.squat_frames + 1;
            }
            self.total_frames = self.total_frames + 1;
        }
        let fired = self.squat_timer.tick(delta);
        if !fired {
            return None;
        }
        let mut stat = self.stat;
        if stat == SquattingStates::Doing {
            // Exact integer form of "at least half the frames squatting":
            // with sq <= nsq, 2*sq >= nsq is sq >= nsq - sq.
            if self.total_frames > 0 && self.squat_frames >= self.total_frames
                - self.squat_frames {
                stat = SquattingStates::Done;
            } else {
                stat = SquattingStates::No;
            }
        }
        let mut ev: Option<RingConEvent> = None;
        if stat == SquattingStates::No {
            if squatting {
                stat = SquattingStates::Doing;
                self.squat_frames = 0;
                self.total_frames = 0;
            }
        } else if stat == SquattingStates::Done {
            ev = Some(RingConEvent::Squat);
            stat = SquattingStates::No;
            self.squat_frames = 0;
            self.total_frames = 0;
        }
        self.stat = stat;
        ev
    }
}

} // verus!
