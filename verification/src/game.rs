//! The whole core as one frame-driven machine: both players' clocks and
//! sequences, the score board, and one `advance` call per frame that ticks
//! the clocks, evaluates the frame's inputs in order, and settles the
//! scores — the fixed stage order every frame follows.
//!
//! Within one frame the clocks stand still between presses, so the frame's
//! outcome events are a pure function of the pre-frame state and the input
//! queue; `frame_eval` is that function, and `advance` returns exactly its
//! value. Only the fresh target sequence rolled after a hit is random, and
//! it is never consulted again before the next frame.

use vstd::prelude::*;

use crate::beat::{spec_elapsed_after, spec_fires};
use crate::events::{
    key_of_command, spec_key_of_command, AttackEvent, GenEvent, PlayerCommandEvent,
};
use crate::rng::RandomSource;
use crate::score::{
    board_view, lemma_headroom_fits, score_headroom, score_system, sys_gens, sys_run, ComboNumber,
    CounterNumber, ScoreSetting,
};
use crate::sound_player::{ActionType, PressKind, SoundPlayer};

verus! {

/// The press-relevant part of one player's state. The clock does not move
/// between the presses of one frame, so the timing-window test is carried
/// as one fixed boolean beside it.
pub struct PressState {
    pub pressed: bool,
    pub past: Seq<i32>,
    pub keys: Seq<i32>,
}

/// The press-relevant view of a player.
pub open spec fn press_view(p: SoundPlayer) -> PressState {
    PressState { pressed: p.pressed, past: p.past_key@, keys: p.action.keys@ }
}

/// Whether a press lands inside the player's timing window right now.
pub open spec fn in_window(p: SoundPlayer) -> bool {
    p.timer.interval - p.timer.elapsed <= p.allowed_error
}

/// The press-relevant view of a player after its clock advances by `delta`:
/// crossing a beat boundary reopens the press window.
pub open spec fn post_tick_view(p: SoundPlayer, delta: int) -> PressState {
    PressState {
        pressed: if spec_fires(p.timer, delta) {
            false
        } else {
            p.pressed
        },
        past: p.past_key@,
        keys: p.action.keys@,
    }
}

/// Whether a press lands inside the player's timing window after its clock
/// advances by `delta`.
pub open spec fn post_tick_window(p: SoundPlayer, delta: int) -> bool {
    p.timer.interval - spec_elapsed_after(p.timer, delta) <= p.allowed_error
}

/// How a press of `key` is classified against a press state, mirroring the
/// per-player evaluation with the window test fixed.
pub open spec fn model_kind(st: PressState, win: bool, key: i32) -> PressKind {
    if !win {
        PressKind::OutOfWindow
    } else if st.pressed {
        PressKind::DoublePress
    } else if st.keys[st.past.len() as int] != key {
        PressKind::WrongKey
    } else if st.past.len() + 1 == st.keys.len() {
        PressKind::Complete
    } else {
        PressKind::Advance
    }
}

/// The press state after a press of `key`. A completed match keeps the old
/// sequence in the model: the real player rerolls it, but with the cycle's
/// press spent nothing reads it again this frame.
pub open spec fn model_next(st: PressState, win: bool, key: i32) -> PressState {
    match model_kind(st, win, key) {
        PressKind::OutOfWindow => PressState { pressed: st.pressed, past: Seq::empty(), keys: st.keys },
        PressKind::DoublePress | PressKind::WrongKey | PressKind::Complete => PressState {
            pressed: true,
            past: Seq::empty(),
            keys: st.keys,
        },
        PressKind::Advance => PressState { pressed: true, past: st.past.push(key), keys: st.keys },
    }
}

/// The outcome event a press of `key` emits, if any.
pub open spec fn model_outcome(st: PressState, win: bool, key: i32, player: i32) -> Option<
    AttackEvent,
> {
    match model_kind(st, win, key) {
        PressKind::Advance => None,
        PressKind::Complete => Some(AttackEvent { player, success: true }),
        _ => Some(AttackEvent { player, success: false }),
    }
}

/// One frame's input queue evaluated in order against both players'
/// press states: the final press states, and the outcome events in FIFO
/// order.
pub open spec fn frame_eval(
    st1: PressState,
    w1: bool,
    st2: PressState,
    w2: bool,
    inputs: Seq<PlayerCommandEvent>,
) -> (PressState, PressState, Seq<AttackEvent>)
    decreases inputs.len(),
{
    if inputs.len() == 0 {
        (st1, st2, Seq::empty())
    } else {
        let e = inputs[0];
        match spec_key_of_command(e.cmd) {
            None => frame_eval(st1, w1, st2, w2, inputs.skip(1)),
            Some(k) => {
                if e.team == 1 {
                    let r = frame_eval(model_next(st1, w1, k), w1, st2, w2, inputs.skip(1));
                    match model_outcome(st1, w1, k, 1) {
                        Some(a) => (r.0, r.1, seq![a] + r.2),
                        None => r,
                    }
                } else {
                    let r = frame_eval(st1, w1, model_next(st2, w2, k), w2, inputs.skip(1));
                    match model_outcome(st2, w2, k, 2) {
                        Some(a) => (r.0, r.1, seq![a] + r.2),
                        None => r,
                    }
                }
            },
        }
    }
}

/// Two press states that the rest of a frame cannot tell apart: same spent
/// press and same progress, and the same sequence wherever the sequence can
/// still be read.
pub open spec fn press_equiv(a: PressState, b: PressState) -> bool {
    &&& a.pressed == b.pressed
    &&& a.past == b.past
    &&& (!a.pressed ==> a.keys == b.keys)
}

/// Frame evaluation cannot tell equivalent press states apart: it emits the
/// same outcome events and ends in equivalent states.
proof fn lemma_frame_eval_equiv(
    a1: PressState,
    b1: PressState,
    w1: bool,
    a2: PressState,
    b2: PressState,
    w2: bool,
    inputs: Seq<PlayerCommandEvent>,
)
    requires
        press_equiv(a1, b1),
        press_equiv(a2, b2),
    ensures
        frame_eval(a1, w1, a2, w2, inputs).2 == frame_eval(b1, w1, b2, w2, inputs).2,
        press_equiv(frame_eval(a1, w1, a2, w2, inputs).0, frame_eval(b1, w1, b2, w2, inputs).0),
        press_equiv(frame_eval(a1, w1, a2, w2, inputs).1, frame_eval(b1, w1, b2, w2, inputs).1),
    decreases inputs.len(),
{
    if inputs.len() > 0 {
        let e = inputs[0];
        match spec_key_of_command(e.cmd) {
            None => {
                lemma_frame_eval_equiv(a1, b1, w1, a2, b2, w2, inputs.skip(1));
            },
            Some(k) => {
                if e.team == 1 {
                    assert(model_kind(a1, w1, k) == model_kind(b1, w1, k));
                    assert(press_equiv(model_next(a1, w1, k), model_next(b1, w1, k)));
                    lemma_frame_eval_equiv(
                        model_next(a1, w1, k),
                        model_next(b1, w1, k),
                        w1,
                        a2,
                        b2,
                        w2,
                        inputs.skip(1),
                    );
                } else {
                    assert(model_kind(a2, w2, k) == model_kind(b2, w2, k));
                    assert(press_equiv(model_next(a2, w2, k), model_next(b2, w2, k)));
                    lemma_frame_eval_equiv(
                        a1,
                        b1,
                        w1,
                        model_next(a2, w2, k),
                        model_next(b2, w2, k),
                        w2,
                        inputs.skip(1),
                    );
                }
            },
        }
    }
}

/// What one frame hands back to the host: beat cues for the audio/visual
/// sync, the frame's outcome events, and the milestone events they caused.
pub struct FrameOutput {
    pub beat1: bool,
    pub beat2: bool,
    pub attacks: Vec<AttackEvent>,
    pub gens: Vec<GenEvent>,
}

/// The whole game: two fully independent players and the shared score
/// configuration.
pub struct Game {
    pub player1: SoundPlayer,
    pub player2: SoundPlayer,
    pub counter: CounterNumber,
    pub combo: ComboNumber,
    pub setting: ScoreSetting,
}

impl Game {
    /// Both players well-formed, each on its own side.
    pub open spec fn wf(&self) -> bool {
        &&& self.player1.wf()
        &&& self.player2.wf()
        &&& self.player1.action.action_type == ActionType::Player1
        &&& self.player2.action.action_type == ActionType::Player2
    }

    /// A fresh game at the moment gameplay starts: zeroed scores, both
    /// clocks at phase zero, fresh target sequences.
    pub fn new<R: RandomSource>(interval: u64, setting: ScoreSetting, rng: &mut R) -> (g: Game)
        requires
            0 < interval,
        ensures
            g.wf(),
            g.player1.timer.interval == interval,
            g.player1.timer.elapsed == 0,
            g.player2.timer.interval == interval,
            g.player2.timer.elapsed == 0,
            !g.player1.pressed,
            !g.player2.pressed,
            g.player1.past_key@.len() == 0,
            g.player2.past_key@.len() == 0,
            g.counter.score1 == 0,
            g.counter.score2 == 0,
            g.combo.score1 == 0,
            g.combo.score2 == 0,
            g.setting == setting,
    {
        Game {
            player1: SoundPlayer::new(interval, ActionType::Player1, rng),
            player2: SoundPlayer::new(interval, ActionType::Player2, rng),
            counter: CounterNumber { score1: 0, score2: 0 },
            combo: ComboNumber { score1: 0, score2: 0 },
            setting,
        }
    }

    /// One frame: tick both clocks by `delta` milliseconds, evaluate the
    /// frame's inputs in FIFO order, then settle the scores from the
    /// outcome events — each stage drains the one before it.
    ///
    /// The attack events are exactly the frame model's fold over the
    /// post-tick states, and the score board and milestone events are
    /// exactly the scoring fold over those attack events.
    pub fn advance<R: RandomSource>(
        &mut self,
        delta: u64,
        inputs: &Vec<PlayerCommandEvent>,
        rng: &mut R,
    ) -> (out: FrameOutput)
        requires
            old(self).wf(),
            old(self).player1.timer.elapsed + delta <= u64::MAX,
            old(self).player2.timer.elapsed + delta <= u64::MAX,
            score_headroom(
                old(self).counter.score1 as int,
                old(self).combo.score1 as int,
                old(self).setting.basic_score as int,
                old(self).setting.combo_score as int,
                inputs@.len() as int,
            ),
            score_headroom(
                old(self).counter.score2 as int,
                old(self).combo.score2 as int,
                old(self).setting.basic_score as int,
                old(self).setting.combo_score as int,
                inputs@.len() as int,
            ),
        ensures
            final(self).wf(),
            final(self).setting == old(self).setting,
            final(self).player1.same_config(&old(self).player1),
            final(self).player2.same_config(&old(self).player2),
            out.beat1 == spec_fires(old(self).player1.timer, delta as int),
            out.beat2 == spec_fires(old(self).player2.timer, delta as int),
            final(self).player1.timer.interval == old(self).player1.timer.interval,
            final(self).player1.timer.elapsed == spec_elapsed_after(
                old(self).player1.timer,
                delta as int,
            ),
            final(self).player2.timer.interval == old(self).player2.timer.interval,
            final(self).player2.timer.elapsed == spec_elapsed_after(
                old(self).player2.timer,
                delta as int,
            ),
            ({
                let r = frame_eval(
                    post_tick_view(old(self).player1, delta as int),
                    post_tick_window(old(self).player1, delta as int),
                    post_tick_view(old(self).player2, delta as int),
                    post_tick_window(old(self).player2, delta as int),
                    inputs@,
                );
                &&& out.attacks@ == r.2
                &&& final(self).player1.pressed == r.0.pressed
                &&& final(self).player1.past_key@ == r.0.past
                &&& final(self).player2.pressed == r.1.pressed
                &&& final(self).player2.past_key@ == r.1.past
            }),
            board_view(final(self).counter, final(self).combo) == sys_run(
                board_view(old(self).counter, old(self).combo),
                old(self).setting.basic_score as int,
                old(self).setting.combo_score as int,
                out.attacks@,
            ),
            out.gens@ == sys_gens(
                board_view(old(self).counter, old(self).combo),
                old(self).setting.basic_score as int,
                old(self).setting.combo_score as int,
                out.attacks@,
            ),
    {
        let beat1 = self.player1.update(delta);
        let beat2 = self.player2.update(delta);

        let ghost w1 = in_window(self.player1);
        let ghost w2 = in_window(self.player2);
        let ghost t1 = self.player1.timer;
        let ghost t2 = self.player2.timer;
        let ghost total = frame_eval(
            press_view(self.player1),
            w1,
            press_view(self.player2),
            w2,
            inputs@,
        );
        proof {
            assert(press_view(self.player1) == post_tick_view(old(self).player1, delta as int));
            assert(press_view(self.player2) == post_tick_view(old(self).player2, delta as int));
            assert(w1 == post_tick_window(old(self).player1, delta as int));
            assert(w2 == post_tick_window(old(self).player2, delta as int));
            assert(inputs@.skip(0) =~= inputs@);
            assert(Seq::<AttackEvent>::empty() + total.2 =~= total.2);
        }

        let mut attacks: Vec<AttackEvent> = Vec::new();
        let mut i: usize = 0;
        while i < inputs.len()
            invariant
                i <= inputs@.len(),
                self.player1.wf(),
                self.player2.wf(),
                self.player1.timer == t1,
                self.player2.timer == t2,
                self.player1.same_config(&old(self).player1),
                self.player2.same_config(&old(self).player2),
                self.player1.action.action_type == ActionType::Player1,
                self.player2.action.action_type == ActionType::Player2,
                self.counter == old(self).counter,
                self.combo == old(self).combo,
                self.setting == old(self).setting,
                w1 == in_window(self.player1),
                w2 == in_window(self.player2),
                attacks@.len() <= i,
                attacks@ + frame_eval(
                    press_view(self.player1),
                    w1,
                    press_view(self.player2),
                    w2,
                    inputs@.skip(i as int),
                ).2 == total.2,
                press_equiv(
                    frame_eval(
                        press_view(self.player1),
                        w1,
                        press_view(self.player2),
                        w2,
                        inputs@.skip(i as int),
                    ).0,
                    total.0,
                ),
                press_equiv(
                    frame_eval(
                        press_view(self.player1),
                        w1,
                        press_view(self.player2),
                        w2,
                        inputs@.skip(i as int),
                    ).1,
                    total.1,
                ),
            decreases inputs@.len() - i,
        {
            let e = inputs[i];
            proof {
                assert(inputs@.skip(i as int)[0] == inputs@[i as int]);
                assert(inputs@.skip(i as int).skip(1) =~= inputs@.skip(i as int + 1));
            }
            match key_of_command(&e.cmd) {
                None => {},
                Some(k) => {
                    if e.team == 1 {
                        let ghost p1b = self.player1;
                        let ghost pre = press_view(self.player1);
                        let out = self.player1.key_down(k, rng);
                        proof {
                            assert(p1b.press_kind(k) == model_kind(pre, w1, k));
                            assert(press_view(self.player1).past =~= model_next(pre, w1, k).past);
                            assert(press_equiv(press_view(self.player1), model_next(pre, w1, k)));
                            lemma_frame_eval_equiv(
                                press_view(self.player1),
                                model_next(pre, w1, k),
                                w1,
                                press_view(self.player2),
                                press_view(self.player2),
                                w2,
                                inputs@.skip(i as int + 1),
                            );
                            if let Some(a) = model_outcome(pre, w1, k, 1) {
                                assert(attacks@.push(a) + frame_eval(
                                    press_view(self.player1),
                                    w1,
                                    press_view(self.player2),
                                    w2,
                                    inputs@.skip(i as int + 1),
                                ).2 =~= attacks@ + (seq![a] + frame_eval(
                                    model_next(pre, w1, k),
                                    w1,
                                    press_view(self.player2),
                                    w2,
                                    inputs@.skip(i as int + 1),
                                ).2));
                            }
                        }
                        if let Some(a) = out {
                            attacks.push(a);
                        }
                    } else {
                        let ghost p2b = self.player2;
                        let ghost pre = press_view(self.player2);
                        let out = self.player2.key_down(k, rng);
                        proof {
                            assert(p2b.press_kind(k) == model_kind(pre, w2, k));
                            assert(press_view(self.player2).past =~= model_next(pre, w2, k).past);
                            assert(press_equiv(press_view(self.player2), model_next(pre, w2, k)));
                            lemma_frame_eval_equiv(
                                press_view(self.player1),
                                press_view(self.player1),
                                w1,
                                press_view(self.player2),
                                model_next(pre, w2, k),
                                w2,
                                inputs@.skip(i as int + 1),
                            );
                            if let Some(a) = model_outcome(pre, w2, k, 2) {
                                assert(attacks@.push(a) + frame_eval(
                                    press_view(self.player1),
                                    w1,
                                    press_view(self.player2),
                                    w2,
                                    inputs@.skip(i as int + 1),
                                ).2 =~= attacks@ + (seq![a] + frame_eval(
                                    press_view(self.player1),
                                    w1,
                                    model_next(pre, w2, k),
                                    w2,
                                    inputs@.skip(i as int + 1),
                                ).2));
                            }
                        }
                        if let Some(a) = out {
                            attacks.push(a);
                        }
                    }
                },
            }
            i = i + 1;
        }
        proof {
            assert(inputs@.skip(inputs@.len() as int) =~= Seq::<PlayerCommandEvent>::empty());
            assert(attacks@ + Seq::<AttackEvent>::empty() =~= attacks@);
            lemma_headroom_fits(
                board_view(self.counter, self.combo),
                self.setting.basic_score as int,
                self.setting.combo_score as int,
                attacks@,
                inputs@.len() as int,
            );
        }
        let gens = score_system(&mut self.counter, &mut self.combo, &self.setting, &attacks);
        FrameOutput { beat1, beat2, attacks, gens }
    }
}

} // verus!
