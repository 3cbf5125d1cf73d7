use rhythm_core::events::{PlayerCommand, PlayerCommandEvent};
use rhythm_core::ringcon::{
    classify_pull, command_for_ring_event, PullVal, RingConEvent, RingConState, SquattingStates,
};

fn sample(push_val: i32, squatting: bool) -> PullVal {
    PullVal { running: true, squatting, push_val }
}

#[test]
fn flex_readings_classify_against_the_thresholds() {
    assert_eq!(classify_pull(9), Some(RingConEvent::Push));
    assert_eq!(classify_pull(7), Some(RingConEvent::Push));
    assert_eq!(classify_pull(6), None);
    assert_eq!(classify_pull(3), None);
    assert_eq!(classify_pull(2), Some(RingConEvent::Pull));
    assert_eq!(classify_pull(-1), Some(RingConEvent::Pull));
}

#[test]
fn holding_the_ring_flexed_fires_only_once() {
    let mut s = RingConState::new();
    assert_eq!(s.on_sample(&sample(9, false)), Some(RingConEvent::Push));
    assert_eq!(s.on_sample(&sample(8, false)), None);
    assert_eq!(s.on_sample(&sample(0, false)), Some(RingConEvent::Pull));
    assert_eq!(s.on_sample(&sample(1, false)), None);
    // Relaxing clears the edge, so the next push fires again.
    assert_eq!(s.on_sample(&sample(4, false)), None);
    assert_eq!(s.on_sample(&sample(9, false)), Some(RingConEvent::Push));
}

#[test]
fn ring_events_drive_side_one() {
    assert_eq!(
        command_for_ring_event(&RingConEvent::Push),
        PlayerCommandEvent { team: 1, cmd: PlayerCommand::Hit1 }
    );
    assert_eq!(
        command_for_ring_event(&RingConEvent::Pull),
        PlayerCommandEvent { team: 1, cmd: PlayerCommand::Hit2 }
    );
    assert_eq!(
        command_for_ring_event(&RingConEvent::Squat),
        PlayerCommandEvent { team: 1, cmd: PlayerCommand::Hit3 }
    );
    assert_eq!(SquattingStates::default(), SquattingStates::No);
}

#[test]
fn poll_pacing_follows_its_own_clock() {
    let mut s = RingConState::new();
    assert!(!s.poll_due(16));
    assert!(s.poll_due(17));
    assert!(!s.poll_due(32));
    assert!(s.poll_due(1));
}

#[test]
fn a_squat_held_through_a_window_fires_one_event() {
    let mut s = RingConState::new();
    // The first full window with squatting opens a measuring window.
    assert_eq!(s.squat_tick(500, true), None);
    assert_eq!(s.stat, SquattingStates::Doing);
    // Five frames, all squatting, then the window rounds off.
    for _ in 0..4 {
        assert_eq!(s.squat_tick(100, true), None);
    }
    assert_eq!(s.squat_tick(100, true), Some(RingConEvent::Squat));
    assert_eq!(s.stat, SquattingStates::No);
    assert_eq!(s.squat_frames, 0);
    assert_eq!(s.total_frames, 0);
}

#[test]
fn a_window_mostly_without_squatting_fires_nothing() {
    let mut s = RingConState::new();
    assert_eq!(s.squat_tick(500, true), None);
    assert_eq!(s.stat, SquattingStates::Doing);
    // One squatting frame out of five: below the half duty cycle.
    assert_eq!(s.squat_tick(100, true), None);
    for _ in 0..3 {
        assert_eq!(s.squat_tick(100, false), None);
    }
    assert_eq!(s.squat_tick(100, false), None);
    assert_eq!(s.stat, SquattingStates::No);
}

#[test]
fn exactly_half_the_frames_squatting_still_counts() {
    let mut s = RingConState::new();
    assert_eq!(s.squat_tick(500, true), None);
    // Two squatting frames of four in the window.
    assert_eq!(s.squat_tick(100, true), None);
    assert_eq!(s.squat_tick(100, true), None);
    assert_eq!(s.squat_tick(100, false), None);
    assert_eq!(s.squat_tick(200, false), Some(RingConEvent::Squat));
}
