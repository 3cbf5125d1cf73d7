use rhythm_core::events::{AttackEvent, GenEvent};
use rhythm_core::score::{
    headroom_check, score_events_fit, score_step, score_system, ComboNumber, CounterNumber,
    ScoreSetting,
};

fn setting() -> ScoreSetting {
    ScoreSetting { basic_score: 3, combo_score: 1 }
}

#[test]
fn a_fail_resets_the_combo_and_scores_nothing() {
    let mut score: u64 = 12;
    let mut combo: u64 = 4;
    let evs = score_step(&mut score, &mut combo, &setting(), 1, false);
    assert_eq!(score, 12);
    assert_eq!(combo, 0);
    assert!(evs.is_empty());
}

#[test]
fn a_hit_scores_the_combo_before_it_grows() {
    let mut score: u64 = 0;
    let mut combo: u64 = 4;
    let evs = score_step(&mut score, &mut combo, &setting(), 1, true);
    assert_eq!(score, 7); // 0 + (4 + 3)
    assert_eq!(combo, 5);
    assert!(evs.iter().all(|e| e.tier == 1));
}

#[test]
fn one_crossed_five_band_emits_one_tier1_event() {
    // From score 3 with combo 1: the gain is 4, the score reaches 7, and
    // exactly one five-point band is crossed.
    let mut score: u64 = 3;
    let mut combo: u64 = 1;
    let evs = score_step(&mut score, &mut combo, &setting(), 1, true);
    assert_eq!(score, 7);
    assert_eq!(combo, 2);
    assert_eq!(evs.len(), 1);
    assert_eq!(evs[0], GenEvent { player: 1, tier: 1 });
}

#[test]
fn a_single_ten_band_is_gated_off() {
    // A gain of 10 crosses one ten-point band, which is below the tier-2
    // gate of two: only the two tier-1 events come out.
    let mut score: u64 = 0;
    let mut combo: u64 = 7;
    let evs = score_step(&mut score, &mut combo, &setting(), 1, true);
    assert_eq!(score, 10);
    assert_eq!(evs.len(), 2);
    assert!(evs.iter().all(|e| *e == GenEvent { player: 1, tier: 1 }));
}

#[test]
fn a_double_ten_band_jump_emits_tier2_events() {
    // A gain of 20 crosses four five-bands and two ten-bands: four tier-1
    // events, then two tier-2 events.
    let mut score: u64 = 0;
    let mut combo: u64 = 17;
    let evs = score_step(&mut score, &mut combo, &setting(), 2, true);
    assert_eq!(score, 20);
    assert_eq!(combo, 18);
    let expect = vec![
        GenEvent { player: 2, tier: 1 },
        GenEvent { player: 2, tier: 1 },
        GenEvent { player: 2, tier: 1 },
        GenEvent { player: 2, tier: 1 },
        GenEvent { player: 2, tier: 2 },
        GenEvent { player: 2, tier: 2 },
    ];
    assert_eq!(evs, expect);
}

#[test]
fn tier1_events_telescope_over_a_trajectory() {
    // Five straight hits drive player 1's score 0 -> 3 -> 7 -> 12 -> 18 -> 25;
    // the tier-1 events over the whole run number 25/5 - 0/5 = 5.
    let mut counter = CounterNumber { score1: 0, score2: 0 };
    let mut combo = ComboNumber { score1: 0, score2: 0 };
    let hits = vec![
        AttackEvent { player: 1, success: true },
        AttackEvent { player: 1, success: true },
        AttackEvent { player: 1, success: true },
        AttackEvent { player: 1, success: true },
        AttackEvent { player: 1, success: true },
    ];
    assert!(score_events_fit(&counter, &combo, &setting(), &hits));
    let gens = score_system(&mut counter, &mut combo, &setting(), &hits);
    assert_eq!(counter.score1, 25);
    assert_eq!(combo.score1, 5);
    let tier1: Vec<&GenEvent> =
        gens.iter().filter(|e| e.player == 1 && e.tier == 1).collect();
    assert_eq!(tier1.len(), 5);
}

#[test]
fn players_are_scored_independently_in_one_drain() {
    let mut counter = CounterNumber { score1: 0, score2: 0 };
    let mut combo = ComboNumber { score1: 2, score2: 2 };
    let events = vec![
        AttackEvent { player: 1, success: true },
        AttackEvent { player: 2, success: false },
        AttackEvent { player: 1, success: true },
        AttackEvent { player: 2, success: true },
    ];
    assert!(score_events_fit(&counter, &combo, &setting(), &events));
    let gens = score_system(&mut counter, &mut combo, &setting(), &events);
    // Player 1: 0 +5 (combo 2) then +6 (combo 3) = 11, combo 4.
    assert_eq!(counter.score1, 11);
    assert_eq!(combo.score1, 4);
    // Player 2: the fail zeroed the combo, then one hit of 0 + 3.
    assert_eq!(counter.score2, 3);
    assert_eq!(combo.score2, 1);
    // Player 1 crossed a five-band at 5 and another at 11; player 2's 3
    // crossed none.
    assert_eq!(gens.len(), 2);
    assert_eq!(gens[0], GenEvent { player: 1, tier: 1 });
    assert_eq!(gens[1], GenEvent { player: 1, tier: 1 });
}

#[test]
fn overflow_is_detected_before_the_drain() {
    let counter = CounterNumber { score1: u64::MAX - 2, score2: 0 };
    let combo = ComboNumber { score1: 0, score2: 0 };
    let events = vec![AttackEvent { player: 1, success: true }];
    assert!(!score_events_fit(&counter, &combo, &setting(), &events));
    let fails = vec![AttackEvent { player: 1, success: false }];
    assert!(score_events_fit(&counter, &combo, &setting(), &fails));
}

#[test]
fn headroom_covers_small_frames_and_refuses_the_brim() {
    assert!(headroom_check(0, 0, 3, 1, 16));
    assert!(headroom_check(1_000_000, 500, 3, 1, 64));
    assert!(!headroom_check(u64::MAX, 0, 1, 0, 1));
    assert!(headroom_check(u64::MAX, 0, 1, 0, 0));
}
