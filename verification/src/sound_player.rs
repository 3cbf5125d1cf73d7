//! The per-player rhythm state: beat clock, target key sequence, match
//! progress, and the evaluation of one key press against all of them.
//!
//! A press is checked cheapest-first: timing window, double-press guard,
//! position in the target sequence, full completion. Each check that fails
//! emits one failed [`AttackEvent`] and clears the match progress; a full
//! match emits one successful event and rerolls the target sequence.

use vstd::prelude::*;

use crate::beat::{spec_elapsed_after, spec_fires, BeatTimer};
use crate::events::AttackEvent;
use crate::rng::RandomSource;

verus! {

/// How many distinct logical keys a target sequence draws from.
pub const KEY_ALPHABET: i32 = 3;

/// Which side a player plays on.
#[derive(PartialEq, Eq, Structural, Copy, Clone, Debug)]
pub enum ActionType {
    Player1,
    Player2,
}

/// The target key sequence a player must reproduce, one key per beat cycle.
pub struct Action {
    pub keys: Vec<i32>,
    pub action_type: ActionType,
}

/// How a press relates to the player's current state; the first four are the
/// distinct failure and progress modes, surfaced to callers only as the
/// success flag of the emitted event.
#[derive(PartialEq, Eq, Structural, Copy, Clone, Debug)]
pub enum PressKind {
    /// The press fell outside the timing window around the beat boundary.
    OutOfWindow,
    /// A press was already accepted in this beat cycle.
    DoublePress,
    /// The wrong key for the current position in the sequence.
    WrongKey,
    /// The right key, with more of the sequence still to play.
    Advance,
    /// The right key, completing the whole sequence.
    Complete,
}

/// The numeric side of an [`ActionType`], as carried in events.
pub open spec fn player_id(t: ActionType) -> i32 {
    match t {
        ActionType::Player1 => 1,
        ActionType::Player2 => 2,
    }
}

impl Action {
    /// An empty action for the given side; a sequence is rolled into it
    /// before play.
    pub fn new(action_type: ActionType) -> (a: Action)
        ensures
            a.keys@.len() == 0,
            a.action_type == action_type,
    {
        Action { keys: Vec::new(), action_type }
    }
}

/// A well-formed target sequence: length 1 to 5, every key inside the
/// alphabet `1..=alphabet`.
pub open spec fn valid_keys(keys: Seq<i32>, alphabet: int) -> bool {
    &&& 1 <= keys.len() <= 5
    &&& forall|i: int| 0 <= i < keys.len() ==> 1 <= #[trigger] keys[i] <= alphabet
}

/// One player's whole rhythm state.
pub struct SoundPlayer {
    /// The target sequence for the current cycle group.
    pub action: Action,
    /// The beat clock every press is timed against.
    pub timer: BeatTimer,
    /// The keys already matched this round: always a strict prefix of the
    /// target sequence.
    pub past_key: Vec<i32>,
    /// Whether a press was already accepted in the current beat cycle.
    pub pressed: bool,
    /// How many distinct keys the sequence draws from (1 to 3).
    pub alphabet: i32,
    /// Half-width of the accepted window before a beat boundary, in
    /// milliseconds.
    pub allowed_error: u64,
}

/// Draws a fresh target sequence: a length uniform in 1 to 5, then that many
/// keys from `1..=alphabet`.
pub fn roll_keys<R: RandomSource>(alphabet: i32, rng: &mut R) -> (keys: Vec<i32>)
    requires
        1 <= alphabet <= KEY_ALPHABET,
    ensures
        valid_keys(keys@, alphabet as int),
{
    let len = rng.next_in_range(1, 6);
    let mut keys: Vec<i32> = Vec::new();
    let mut i: i32 = 0;
    while i < len
        invariant
            0 <= i <= len,
            1 <= len <= 5,
            1 <= alphabet <= KEY_ALPHABET,
            keys@.len() == i,
            forall|j: int| 0 <= j < keys@.len() ==> 1 <= #[trigger] keys@[j] <= alphabet,
        decreases len - i,
    {
        keys.push(rng.next_in_range(1, alphabet + 1));
        i = i + 1;
    }
    keys
}

impl SoundPlayer {
    /// The configuration part of the invariant: a running clock, an alphabet
    /// inside bounds, and a valid target sequence.
    pub open spec fn config_wf(&self) -> bool {
        &&& self.timer.wf()
        &&& 1 <= self.alphabet <= KEY_ALPHABET
        &&& valid_keys(self.action.keys@, self.alphabet as int)
    }

    /// The player invariant: a well-formed configuration, and a match
    /// progress that is a strict prefix of the target sequence.
    pub open spec fn wf(&self) -> bool {
        &&& self.config_wf()
        &&& self.past_key@.len() < self.action.keys@.len()
        &&& self.past_key@ == self.action.keys@.take(self.past_key@.len() as int)
    }

    /// Everything but the press-evaluation state is kept by a call.
    pub open spec fn same_config(&self, other: &SoundPlayer) -> bool {
        &&& self.action.action_type == other.action.action_type
        &&& self.alphabet == other.alphabet
        &&& self.allowed_error == other.allowed_error
    }

    /// How a press of `key` would be classified against this state.
    pub open spec fn press_kind(&self, key: i32) -> PressKind {
        if self.timer.interval - self.timer.elapsed > self.allowed_error {
            PressKind::OutOfWindow
        } else if self.pressed {
            PressKind::DoublePress
        } else if self.action.keys@[self.past_key@.len() as int] != key {
            PressKind::WrongKey
        } else if self.past_key@.len() + 1 == self.action.keys@.len() {
            PressKind::Complete
        } else {
            PressKind::Advance
        }
    }

    /// A new player with the canonical timing policy: the accepted window is
    /// the quarter interval before each beat boundary.
    pub fn new<R: RandomSource>(interval: u64, action_type: ActionType, rng: &mut R) -> (p:
        SoundPlayer)
        requires
            0 < interval,
        ensures
            p.wf(),
            p.timer.interval == interval,
            p.timer.elapsed == 0,
            p.action.action_type == action_type,
            p.past_key@.len() == 0,
            !p.pressed,
            p.alphabet == KEY_ALPHABET,
            p.allowed_error == interval / 4,
    {
        Self::new_configured(interval, action_type, KEY_ALPHABET, interval / 4, rng)
    }

    /// A new player with an explicit alphabet size and timing tolerance; the
    /// coarser hardware input source uses half the interval as tolerance.
    pub fn new_configured<R: RandomSource>(
        interval: u64,
        action_type: ActionType,
        alphabet: i32,
        allowed_error: u64,
        rng: &mut R,
    ) -> (p: SoundPlayer)
        requires
            0 < interval,
            1 <= alphabet <= KEY_ALPHABET,
        ensures
            p.wf(),
            p.timer.interval == interval,
            p.timer.elapsed == 0,
            p.action.action_type == action_type,
            p.past_key@.len() == 0,
            !p.pressed,
            p.alphabet == alphabet,
            p.allowed_error == allowed_error,
    {
        let mut action = Action::new(action_type);
        action.keys = roll_keys(alphabet, rng);
        let p = SoundPlayer {
            action,
            timer: BeatTimer::new(interval),
            past_key: Vec::new(),
            pressed: false,
            alphabet,
            allowed_error,
        };
        assert(p.past_key@ =~= p.action.keys@.take(0));
        p
    }

    /// Replaces the target sequence with a fresh roll and resets the match
    /// progress.
    pub fn reroll<R: RandomSource>(&mut self, rng: &mut R)
        requires
            old(self).config_wf(),
        ensures
            final(self).wf(),
            final(self).timer == old(self).timer,
            final(self).pressed == old(self).pressed,
            final(self).same_config(old(self)),
            final(self).past_key@.len() == 0,
    {
        self.action.keys = roll_keys(self.alphabet, rng);
        self.past_key.clear();
        assert(self.past_key@ =~= self.action.keys@.take(0));
    }

    /// Emits this player's failure event and clears the match progress;
    /// every rejected press is such a recoverable failure, never an error.
    fn fail(&mut self) -> (ev: AttackEvent)
        requires
            old(self).config_wf(),
        ensures
            final(self).wf(),
            final(self).timer == old(self).timer,
            final(self).pressed == old(self).pressed,
            final(self).action.keys == old(self).action.keys,
            final(self).same_config(old(self)),
            final(self).past_key@.len() == 0,
            ev == (AttackEvent { player: player_id(old(self).action.action_type), success: false }),
    {
        let player = match self.action.action_type {
            ActionType::Player1 => 1,
            ActionType::Player2 => 2,
        };
        self.past_key.clear();
        assert(self.past_key@ =~= self.action.keys@.take(0));
        AttackEvent { player, success: false }
    }

    /// Advances this player's beat clock by `delta` milliseconds. On the tick
    /// that crosses a beat boundary the press window reopens, and `true` asks
    /// the host for a beat cue; at most one boundary is reported per tick.
    pub fn update(&mut self, delta: u64) -> (beat: bool)
        requires
            old(self).wf(),
            old(self).timer.elapsed + delta <= u64::MAX,
        ensures
            final(self).wf(),
            final(self).same_config(old(self)),
            final(self).action.keys == old(self).action.keys,
            final(self).past_key == old(self).past_key,
            final(self).timer.interval == old(self).timer.interval,
            beat == spec_fires(old(self).timer, delta as int),
            final(self).timer.elapsed == spec_elapsed_after(old(self).timer, delta as int),
            beat ==> !final(self).pressed,
            !beat ==> final(self).pressed == old(self).pressed,
    {
        let fired = self.timer.tick(delta);
        if fired {
            self.pressed = false;
        }
        fired
    }

    /// Evaluates one press of `key`. Exactly one outcome event comes back
    /// for every press except a correct-but-incomplete one; a full match
    /// rerolls the target sequence for the next round.
    pub fn key_down<R: RandomSource>(&mut self, key: i32, rng: &mut R) -> (out: Option<
        AttackEvent,
    >)
        requires
            old(self).wf(),
        ensures
            final(self).wf(),
            final(self).timer == old(self).timer,
            final(self).same_config(old(self)),
            match old(self).press_kind(key) {
                PressKind::OutOfWindow => {
                    &&& out == Some(
                        AttackEvent {
                            player: player_id(old(self).action.action_type),
                            success: false,
                        },
                    )
                    &&& final(self).past_key@.len() == 0
                    &&& final(self).pressed == old(self).pressed
                    &&& final(self).action.keys == old(self).action.keys
                },
                PressKind::DoublePress | PressKind::WrongKey => {
                    &&& out == Some(
                        AttackEvent {
                            player: player_id(old(self).action.action_type),
                            success: false,
                        },
                    )
                    &&& final(self).past_key@.len() == 0
                    &&& final(self).pressed
                    &&& final(self).action.keys == old(self).action.keys
                },
                PressKind::Advance => {
                    &&& out is None
                    &&& final(self).past_key@ == old(self).past_key@.push(key)
                    &&& final(self).pressed
                    &&& final(self).action.keys == old(self).action.keys
                },
                PressKind::Complete => {
                    &&& out == Some(
                        AttackEvent {
                            player: player_id(old(self).action.action_type),
                            success: true,
                        },
                    )
                    &&& final(self).past_key@.len() == 0
                    &&& final(self).pressed
                },
            },
    {
        // Timing window: the press must land within `allowed_error` of the
        // coming beat boundary.
        if self.timer.remaining() > self.allowed_error {
            return Some(self.fail());
        }
        // Double press: only one accepted input per beat cycle.
        if self.pressed {
            return Some(self.fail());
        }
        self.pressed = true;

        self.past_key.push(key);
        let idx = self.past_key.len() - 1;
        if self.action.keys[idx] != key {
            // Wrong key for this position.
            return Some(self.fail());
        }
        proof {
            assert(self.past_key@ =~= self.action.keys@.take(self.past_key@.len() as int));
        }
        // The progress is a prefix of the target, so the full sequences are
        // equal exactly when the lengths now agree.
        if self.past_key.len() == self.action.keys.len() {
            proof {
                assert(self.past_key@ =~= self.action.keys@);
            }
            self.past_key.clear();
            let ev = AttackEvent {
                player: match self.action.action_type {
                    ActionType::Player1 => 1,
                    ActionType::Player2 => 2,
                },
                success: true,
            };
            self.reroll(rng);
            return Some(ev);
        }
        None
    }
}

/// The character a key id displays as on the in-game rows.
pub open spec fn key_char(k: i32) -> char {
    if k == 1 {
        '1'
    } else if k == 2 {
        '2'
    } else {
        '3'
    }
}

/// Displays one key id as its digit.
pub fn char_of_key(k: i32) -> (c: char)
    ensures
        c == key_char(k),
{
    if k == 1 {
        '1'
    } else if k == 2 {
        '2'
    } else {
        '3'
    }
}

impl SoundPlayer {
    /// The on-screen row for the match progress: one digit per key already
    /// matched, padded with spaces to the target sequence's length.
    pub fn past_key_display(&self) -> (s: Vec<char>)
        requires
            self.wf(),
        ensures
            s@.len() == self.action.keys@.len(),
            forall|i: int|
                0 <= i < self.past_key@.len() ==> #[trigger] s@[i] == key_char(self.past_key@[i]),
            forall|i: int| self.past_key@.len() <= i < s@.len() ==> #[trigger] s@[i] == ' ',
    {
        let mut s: Vec<char> = Vec::new();
        let mut i: usize = 0;
        while i < self.past_key.len()
            invariant
                self.wf(),
                i <= self.past_key@.len(),
                s@.len() == i,
                forall|j: int|
                    0 <= j < s@.len() ==> #[trigger] s@[j] == key_char(self.past_key@[j]),
            decreases self.past_key@.len() - i,
        {
            s.push(char_of_key(self.past_key[i]));
            i = i + 1;
        }
        let mut j: usize = self.past_key.len();
        while j < self.action.keys.len()
            invariant
                self.wf(),
                self.past_key@.len() <= j <= self.action.keys@.len(),
                s@.len() == j,
                forall|k: int|
                    0 <= k < self.past_key@.len() ==> #[trigger] s@[k] == key_char(
                        self.past_key@[k],
                    ),
                forall|k: int| self.past_key@.len() <= k < s@.len() ==> #[trigger] s@[k] == ' ',
            decreases self.action.keys@.len() - j,
        {
            s.push(' ');
            j = j + 1;
        }
        s
    }

    /// The on-screen row for the target sequence: one digit per key.
    pub fn goal_display(&self) -> (s: Vec<char>)
        requires
            self.wf(),
        ensures
            s@.len() == self.action.keys@.len(),
            forall|i: int|
                0 <= i < s@.len() ==> #[trigger] s@[i] == key_char(self.action.keys@[i]),
    {
        let mut s: Vec<char> = Vec::new();
        let mut i: usize = 0;
        while i < self.action.keys.len()
            invariant
                self.wf(),
                i <= self.action.keys@.len(),
                s@.len() == i,
                forall|j: int|
                    0 <= j < s@.len() ==> #[trigger] s@[j] == key_char(self.action.keys@[j]),
            decreases self.action.keys@.len() - i,
        {
            s.push(char_of_key(self.action.keys[i]));
            i = i + 1;
        }
        s
    }
}

/// A graded timing judgement for a press, from dead centre outwards.
#[derive(PartialEq, Eq, Structural, Copy, Clone, Debug)]
pub enum HitResult {
    Perfect,
    Good,
    Okay,
    Miss,
}

/// The grade for a press `delta` milliseconds away from the beat it aimed
/// at, under tolerance `error`: nothing at all beyond the tolerance, then
/// ever better grades inside three quarters, one half and one third of it.
pub open spec fn spec_hit_result(error: int, delta: int) -> Option<HitResult> {
    if delta > error {
        None
    } else if delta > error * 3 / 4 {
        Some(HitResult::Miss)
    } else if delta > error / 2 {
        Some(HitResult::Okay)
    } else if delta > error / 3 {
        Some(HitResult::Good)
    } else {
        Some(HitResult::Perfect)
    }
}

/// Grades one press against the beat it aimed at.
pub fn check_hit_result(error: u64, delta: u64) -> (r: Option<HitResult>)
    requires
        error <= u64::MAX / 3,
    ensures
        r == spec_hit_result(error as int, delta as int),
{
    if delta > error {
        return None;
    }
    if delta > error * 3 / 4 {
        return Some(HitResult::Miss);
    }
    if delta > error / 2 {
        return Some(HitResult::Okay);
    }
    if delta > error / 3 {
        return Some(HitResult::Good);
    }
    Some(HitResult::Perfect)
}

/// A press farther than the allowed tolerance from every beat boundary —
/// later than it after the last one and earlier than it before the next —
/// is rejected as out of the timing window, whatever the key.
pub proof fn lemma_far_press_fails(p: SoundPlayer, key: i32)
    requires
        p.wf(),
        p.timer.elapsed > p.allowed_error,
        p.timer.interval - p.timer.elapsed > p.allowed_error,
    ensures
        p.press_kind(key) == PressKind::OutOfWindow,
{
}

/// Once a press has been accepted in a beat cycle, every further press in
/// the same cycle is rejected, whatever the key: as a double press when it
/// lands inside the window, as out of the window otherwise.
pub proof fn lemma_double_press_fails(p: SoundPlayer, key: i32)
    requires
        p.wf(),
        p.pressed,
    ensures
        p.press_kind(key) == PressKind::DoublePress || p.press_kind(key)
            == PressKind::OutOfWindow,
{
}

} // verus!
