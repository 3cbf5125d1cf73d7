//! Core of a two-player call-and-response rhythm minigame: a repeating beat
//! clock per player, a pseudo-random target key sequence per cycle, evaluation
//! of key presses against the timing window and the sequence, and combo/score
//! accounting with score-milestone events.
//!
//! The host (rendering, audio, windowing) feeds raw inputs and the per-frame
//! time step in, and consumes the emitted events; none of that lives here.
//!
//! [`beat`] holds the repeating clock; [`sound_player`] the per-player
//! evaluator; [`score`] the combo/score fold and its milestone events;
//! [`game`] the frame pipeline tying the stages together; [`events`] the
//! event vocabulary; [`rng`] the injectable randomness; [`ringcon`] the
//! ring controller's decision logic.

pub mod beat;
pub mod events;
pub mod game;
pub mod ringcon;
pub mod rng;
pub mod score;
pub mod sound_player;
