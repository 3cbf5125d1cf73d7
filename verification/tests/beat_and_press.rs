use rhythm_core::beat::BeatTimer;
use rhythm_core::rng::{RandomSource, ScriptedRandom, ThreadRandom};
use rhythm_core::sound_player::{
    check_hit_result, roll_keys, ActionType, HitResult, SoundPlayer,
};

#[test]
fn beat_timer_fires_once_per_interval() {
    let mut t = BeatTimer::new(1000);
    assert!(!t.tick(999));
    assert_eq!(t.elapsed, 999);
    assert!(t.tick(1));
    assert_eq!(t.elapsed, 0);
    assert_eq!(t.remaining(), 1000);
}

#[test]
fn beat_timer_reports_one_firing_on_large_hitch() {
    let mut t = BeatTimer::new(1000);
    assert!(t.tick(2500));
    assert_eq!(t.elapsed, 500);
    assert_eq!(t.remaining(), 500);
}

#[test]
fn rerolled_sequences_stay_in_bounds() {
    // Length always lands in 1..=5 and every key in the configured alphabet,
    // whatever the source hands out.
    let mut rng = ThreadRandom {};
    for _ in 0..200 {
        let keys = roll_keys(3, &mut rng);
        assert!(1 <= keys.len() && keys.len() <= 5);
        for k in &keys {
            assert!(1 <= *k && *k <= 3);
        }
    }
    for _ in 0..200 {
        let keys = roll_keys(2, &mut rng);
        assert!(1 <= keys.len() && keys.len() <= 5);
        for k in &keys {
            assert!(1 <= *k && *k <= 2);
        }
    }
}

#[test]
fn scripted_reroll_is_deterministic() {
    let mut rng = ScriptedRandom::new(vec![2, 1, 2]);
    let keys = roll_keys(3, &mut rng);
    assert_eq!(keys, vec![1, 2]);
    // Values outside the asked range fall back to the low bound.
    let mut rng = ScriptedRandom::new(vec![99, 7]);
    let keys = roll_keys(3, &mut rng);
    assert_eq!(keys, vec![1]);
}

#[test]
fn press_far_from_both_boundaries_fails_and_clears() {
    // 300 ms past the last boundary and 700 ms short of the next: farther
    // than the quarter-interval tolerance from each, so the press fails.
    let mut rng = ScriptedRandom::new(vec![2, 1, 2]);
    let mut p = SoundPlayer::new(1000, ActionType::Player1, &mut rng);
    assert_eq!(p.action.keys, vec![1, 2]);
    assert!(!p.update(300));
    let out = p.key_down(1, &mut rng);
    let ev = out.expect("an out-of-window press must emit an outcome");
    assert_eq!(ev.player, 1);
    assert!(!ev.success);
    assert!(p.past_key.is_empty());
}

#[test]
fn press_at_forty_percent_offset_fails_and_clears() {
    // A press 400 ms after the last boundary with a 250 ms tolerance fails,
    // and wipes the progress built in the cycle before.
    let mut rng = ScriptedRandom::new(vec![2, 1, 2]);
    let mut p = SoundPlayer::new(1000, ActionType::Player1, &mut rng);
    assert!(!p.update(800));
    assert_eq!(p.key_down(1, &mut rng), None);
    assert_eq!(p.past_key, vec![1]);
    assert!(p.update(600));
    assert_eq!(p.timer.elapsed, 400);
    let ev = p.key_down(2, &mut rng).expect("out of window");
    assert!(!ev.success);
    assert!(p.past_key.is_empty());
}

#[test]
fn second_press_in_a_cycle_fails_whatever_the_key() {
    // First press correct and accepted; the next press of the same cycle
    // fails even though it carries the right next key.
    let mut rng = ScriptedRandom::new(vec![2, 1, 2]);
    let mut p = SoundPlayer::new(1000, ActionType::Player1, &mut rng);
    assert_eq!(p.action.keys, vec![1, 2]);
    assert!(!p.update(800));
    assert_eq!(p.key_down(1, &mut rng), None);
    assert_eq!(p.past_key, vec![1]);
    let ev = p.key_down(2, &mut rng).expect("double press");
    assert!(!ev.success);
    assert!(p.past_key.is_empty());
}

#[test]
fn wrong_key_fails_and_full_match_rerolls() {
    let mut rng = ScriptedRandom::new(vec![2, 1, 2, 1, 3]);
    let mut p = SoundPlayer::new(1000, ActionType::Player1, &mut rng);
    assert_eq!(p.action.keys, vec![1, 2]);
    // Wrong key at position 0.
    assert!(!p.update(800));
    let ev = p.key_down(3, &mut rng).expect("wrong key");
    assert!(!ev.success);
    assert!(p.past_key.is_empty());
    // Now play the sequence out over two cycles.
    assert!(p.update(1000));
    assert_eq!(p.key_down(1, &mut rng), None);
    assert!(p.update(1000));
    let ev = p.key_down(2, &mut rng).expect("full match");
    assert!(ev.success);
    assert!(p.past_key.is_empty());
    // The scripted reroll gave a fresh length-1 sequence.
    assert_eq!(p.action.keys, vec![3]);
}

#[test]
fn coarse_tolerance_accepts_a_wider_window() {
    // With the half-interval tolerance of the coarse input source, a press
    // 400 ms before the boundary is accepted.
    let mut rng = ScriptedRandom::new(vec![1, 2]);
    let mut p = SoundPlayer::new_configured(1000, ActionType::Player2, 3, 500, &mut rng);
    assert_eq!(p.action.keys, vec![2]);
    assert!(!p.update(600));
    let ev = p.key_down(2, &mut rng).expect("full match");
    assert!(ev.success);
    assert_eq!(ev.player, 2);
}

#[test]
fn display_rows_show_progress_and_goal() {
    let mut rng = ScriptedRandom::new(vec![2, 1, 2]);
    let mut p = SoundPlayer::new(1000, ActionType::Player1, &mut rng);
    assert_eq!(p.goal_display(), vec!['1', '2']);
    assert_eq!(p.past_key_display(), vec![' ', ' ']);
    assert!(!p.update(800));
    assert_eq!(p.key_down(1, &mut rng), None);
    assert_eq!(p.past_key_display(), vec!['1', ' ']);
}

#[test]
fn hit_grades_fall_in_their_bands() {
    assert_eq!(check_hit_result(100, 101), None);
    assert_eq!(check_hit_result(100, 80), Some(HitResult::Miss));
    assert_eq!(check_hit_result(100, 76), Some(HitResult::Miss));
    assert_eq!(check_hit_result(100, 75), Some(HitResult::Okay));
    assert_eq!(check_hit_result(100, 51), Some(HitResult::Okay));
    assert_eq!(check_hit_result(100, 50), Some(HitResult::Good));
    assert_eq!(check_hit_result(100, 34), Some(HitResult::Good));
    assert_eq!(check_hit_result(100, 33), Some(HitResult::Perfect));
    assert_eq!(check_hit_result(100, 0), Some(HitResult::Perfect));
}

#[test]
fn scripted_source_clamps_into_range() {
    let mut rng = ScriptedRandom::new(vec![5, -3, 2]);
    assert_eq!(rng.next_in_range(1, 4), 1); // 5 out of range
    assert_eq!(rng.next_in_range(1, 4), 1); // -3 out of range
    assert_eq!(rng.next_in_range(1, 4), 2);
    assert_eq!(rng.next_in_range(1, 4), 1); // script exhausted
}
