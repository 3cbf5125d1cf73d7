//! The event vocabulary of the game core: logical player commands coming in,
//! attack outcomes and score milestones going out.
//!
//! Events travel in plain `Vec` queues drained once per frame in a fixed
//! stage order, so delivery is FIFO within a frame.

use vstd::prelude::*;

verus! {

/// A logical input, decoupled from the physical keyboard or peripheral.
#[derive(PartialEq, Eq, Structural, Copy, Clone, Debug)]
pub enum PlayerCommand {
    Hit1,
    Hit2,
    Hit3,
    Exit,
}

/// One raw input: which side pressed, and what.
#[derive(PartialEq, Eq, Structural, Copy, Clone, Debug)]
pub struct PlayerCommandEvent {
    pub team: i32,
    pub cmd: PlayerCommand,
}

/// The outcome of one press (or of a detected failure): emitted exactly once
/// per evaluated press.
#[derive(PartialEq, Eq, Structural, Copy, Clone, Debug)]
pub struct AttackEvent {
    pub player: i32,
    pub success: bool,
}

/// A score-milestone notification; `tier` is 1 (a five-point band was
/// crossed) or 2 (a ten-point band).
#[derive(PartialEq, Eq, Structural, Copy, Clone, Debug)]
pub struct GenEvent {
    pub player: i32,
    pub tier: i32,
}

/// Which celebratory figure a milestone event spawns.
#[derive(PartialEq, Eq, Structural, Copy, Clone, Debug)]
pub enum MilestoneImage {
    People,
    Cat,
    SedanChair,
}

/// The figure a milestone event's tier calls for: the small crowd figure
/// for tier 1, the cat for tier 2, the sedan chair for anything else.
pub open spec fn spec_milestone_image(tier: i32) -> MilestoneImage {
    if tier == 1 {
        MilestoneImage::People
    } else if tier == 2 {
        MilestoneImage::Cat
    } else {
        MilestoneImage::SedanChair
    }
}

/// Picks the figure a milestone event spawns; the host places and animates
/// it on the event's player's side.
pub fn milestone_image(e: &GenEvent) -> (r: MilestoneImage)
    ensures
        r == spec_milestone_image(e.tier),
{
    if e.tier == 1 {
        MilestoneImage::People
    } else if e.tier == 2 {
        MilestoneImage::Cat
    } else {
        MilestoneImage::SedanChair
    }
}

/// The logical key id carried by a hit command, if any.
pub open spec fn spec_key_of_command(cmd: PlayerCommand) -> Option<i32> {
    match cmd {
        PlayerCommand::Hit1 => Some(1),
        PlayerCommand::Hit2 => Some(2),
        PlayerCommand::Hit3 => Some(3),
        PlayerCommand::Exit => None,
    }
}

/// Maps a hit command to its logical key id; `Exit` carries none.
pub fn key_of_command(cmd: &PlayerCommand) -> (k: Option<i32>)
    ensures
        k == spec_key_of_command(*cmd),
{
    match cmd {
        PlayerCommand::Hit1 => Some(1),
        PlayerCommand::Hit2 => Some(2),
        PlayerCommand::Hit3 => Some(3),
        PlayerCommand::Exit => None,
    }
}

/// The keyboard layout: left-hand letters drive side 1, right-hand letters
/// drive side 2.
pub open spec fn spec_command_for_key(c: char) -> Option<PlayerCommandEvent> {
    if c == 'A' {
        Some(PlayerCommandEvent { team: 1, cmd: PlayerCommand::Hit1 })
    } else if c == 'W' {
        Some(PlayerCommandEvent { team: 1, cmd: PlayerCommand::Hit2 })
    } else if c == 'D' {
        Some(PlayerCommandEvent { team: 1, cmd: PlayerCommand::Hit3 })
    } else if c == 'G' {
        Some(PlayerCommandEvent { team: 2, cmd: PlayerCommand::Hit1 })
    } else if c == 'Y' {
        Some(PlayerCommandEvent { team: 2, cmd: PlayerCommand::Hit2 })
    } else if c == 'J' {
        Some(PlayerCommandEvent { team: 2, cmd: PlayerCommand::Hit3 })
    } else {
        None
    }
}

/// Turns one pressed key into a logical command event, or nothing for a key
/// outside the layout. The host feeds every keyboard press through this.
pub fn command_for_key(c: char) -> (r: Option<PlayerCommandEvent>)
    ensures
        r == spec_command_for_key(c),
{
    if c == 'A' {
        Some(PlayerCommandEvent { team: 1, cmd: PlayerCommand::Hit1 })
    } else if c == 'W' {
        Some(PlayerCommandEvent { team: 1, cmd: PlayerCommand::Hit2 })
    } else if c == 'D' {
        Some(PlayerCommandEvent { team: 1, cmd: PlayerCommand::Hit3 })
    } else if c == 'G' {
        Some(PlayerCommandEvent { team: 2, cmd: PlayerCommand::Hit1 })
    } else if c == 'Y' {
        Some(PlayerCommandEvent { team: 2, cmd: PlayerCommand::Hit2 })
    } else if c == 'J' {
        Some(PlayerCommandEvent { team: 2, cmd: PlayerCommand::Hit3 })
    } else {
        None
    }
}

} // verus!
