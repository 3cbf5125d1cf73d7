//! Combo and score accounting, and the score-milestone events it emits.
//!
//! A failed outcome resets the player's combo; a successful one adds
//! `combo + basic_score` to the score, then grows the combo by
//! `combo_score`. Each hit also emits one tier-1 milestone event per
//! five-point band the score jump crossed, and — only when at least two
//! ten-point bands were crossed at once — that many tier-2 events.

use vstd::prelude::*;

use vstd::arithmetic::div_mod::lemma_div_is_ordered;

use crate::events::{AttackEvent, GenEvent};

verus! {

/// The immutable scoring configuration for a whole match.
pub struct ScoreSetting {
    pub basic_score: u64,
    pub combo_score: u64,
}

/// The two players' cumulative scores.
pub struct CounterNumber {
    pub score1: u64,
    pub score2: u64,
}

/// The two players' current combo counters.
pub struct ComboNumber {
    pub score1: u64,
    pub score2: u64,
}

/// How many five-point bands a jump from `score` by `inc` crosses.
pub open spec fn tier1_count(score: int, inc: int) -> int {
    (score + inc) / 5 - score / 5
}

/// How many tier-2 events a jump from `score` by `inc` emits: the number of
/// ten-point bands crossed, but only when that number reaches two — a single
/// crossed ten-point band emits nothing.
pub open spec fn tier2_count(score: int, inc: int) -> int {
    let g = (score + inc) / 10 - score / 10;
    if g >= 2 {
        g
    } else {
        0
    }
}

/// The milestone events one hit emits, tier-1 copies first.
pub open spec fn milestone_events(player: i32, score: int, inc: int) -> Seq<GenEvent> {
    Seq::new(tier1_count(score, inc) as nat, |i: int| GenEvent { player, tier: 1 }) + Seq::new(
        tier2_count(score, inc) as nat,
        |i: int| GenEvent { player, tier: 2 },
    )
}

/// The four counters as one mathematical state: player 1's score and combo,
/// then player 2's.
pub open spec fn board_view(counter: CounterNumber, combo: ComboNumber) -> (int, int, int, int) {
    (counter.score1 as int, combo.score1 as int, counter.score2 as int, combo.score2 as int)
}

/// One outcome applied to the board. An event whose player is not 1 counts
/// for player 2.
pub open spec fn sys_step(st: (int, int, int, int), basic: int, cs: int, e: AttackEvent) -> (
    int,
    int,
    int,
    int,
) {
    let (s1, c1, s2, c2) = st;
    if e.player == 1 {
        if e.success {
            (s1 + c1 + basic, c1 + cs, s2, c2)
        } else {
            (s1, 0, s2, c2)
        }
    } else {
        if e.success {
            (s1, c1, s2 + c2 + basic, c2 + cs)
        } else {
            (s1, c1, s2, 0)
        }
    }
}

/// The milestone events one outcome emits at the given board.
pub open spec fn step_gens(st: (int, int, int, int), basic: int, e: AttackEvent) -> Seq<GenEvent> {
    let (s1, c1, s2, c2) = st;
    if e.success {
        if e.player == 1 {
            milestone_events(1, s1, c1 + basic)
        } else {
            milestone_events(2, s2, c2 + basic)
        }
    } else {
        Seq::empty()
    }
}

/// Whether one outcome can be applied without the counters leaving `u64`.
pub open spec fn step_fits(st: (int, int, int, int), basic: int, cs: int, e: AttackEvent) -> bool {
    let (s1, c1, s2, c2) = st;
    if e.success {
        if e.player == 1 {
            s1 + c1 + basic <= u64::MAX && c1 + cs <= u64::MAX
        } else {
            s2 + c2 + basic <= u64::MAX && c2 + cs <= u64::MAX
        }
    } else {
        true
    }
}

/// The board after a whole run of outcomes, applied first to last.
pub open spec fn sys_run(
    st: (int, int, int, int),
    basic: int,
    cs: int,
    evts: Seq<AttackEvent>,
) -> (int, int, int, int)
    decreases evts.len(),
{
    if evts.len() == 0 {
        st
    } else {
        sys_run(sys_step(st, basic, cs, evts[0]), basic, cs, evts.skip(1))
    }
}

/// Whether a whole run of outcomes stays within `u64` at every step.
pub open spec fn sys_fits(
    st: (int, int, int, int),
    basic: int,
    cs: int,
    evts: Seq<AttackEvent>,
) -> bool
    decreases evts.len(),
{
    if evts.len() == 0 {
        true
    } else {
        step_fits(st, basic, cs, evts[0]) && sys_fits(
            sys_step(st, basic, cs, evts[0]),
            basic,
            cs,
            evts.skip(1),
        )
    }
}

/// All the milestone events a whole run of outcomes emits, in order.
pub open spec fn sys_gens(
    st: (int, int, int, int),
    basic: int,
    cs: int,
    evts: Seq<AttackEvent>,
) -> Seq<GenEvent>
    decreases evts.len(),
{
    if evts.len() == 0 {
        Seq::empty()
    } else {
        step_gens(st, basic, evts[0]) + sys_gens(
            sys_step(st, basic, cs, evts[0]),
            basic,
            cs,
            evts.skip(1),
        )
    }
}

/// How many events in `gens` belong to `player` at `tier`.
pub open spec fn count_tier(gens: Seq<GenEvent>, player: i32, tier: i32) -> int
    decreases gens.len(),
{
    if gens.len() == 0 {
        0
    } else {
        (if gens[0].player == player && gens[0].tier == tier {
            1int
        } else {
            0int
        }) + count_tier(gens.skip(1), player, tier)
    }
}

proof fn lemma_count_tier_concat(a: Seq<GenEvent>, b: Seq<GenEvent>, player: i32, tier: i32)
    ensures
        count_tier(a + b, player, tier) == count_tier(a, player, tier) + count_tier(
            b,
            player,
            tier,
        ),
    decreases a.len(),
{
    if a.len() == 0 {
        assert(a + b =~= b);
    } else {
        assert((a + b).skip(1) =~= a.skip(1) + b);
        lemma_count_tier_concat(a.skip(1), b, player, tier);
    }
}

proof fn lemma_count_tier_const(n: nat, p: i32, t: i32, player: i32, tier: i32)
    ensures
        count_tier(Seq::new(n, |i: int| GenEvent { player: p, tier: t }), player, tier) == (
        if p == player && t == tier {
            n as int
        } else {
            0int
        }),
    decreases n,
{
    let s = Seq::new(n, |i: int| GenEvent { player: p, tier: t });
    if n > 0 {
        assert(s.skip(1) =~= Seq::new((n - 1) as nat, |i: int| GenEvent { player: p, tier: t }));
        lemma_count_tier_const((n - 1) as nat, p, t, player, tier);
    }
}

proof fn lemma_count_milestones(player: i32, score: int, inc: int, who: i32, tier: i32)
    requires
        0 <= score,
        0 <= inc,
    ensures
        count_tier(milestone_events(player, score, inc), who, tier) == (
        if who == player && tier == 1 {
            tier1_count(score, inc)
        } else if who == player && tier == 2 {
            tier2_count(score, inc)
        } else {
            0int
        }),
{
    lemma_div_is_ordered(score, score + inc, 5);
    let t1 = tier1_count(score, inc) as nat;
    let t2 = tier2_count(score, inc) as nat;
    lemma_count_tier_concat(
        Seq::new(t1, |i: int| GenEvent { player, tier: 1 }),
        Seq::new(t2, |i: int| GenEvent { player, tier: 2 }),
        who,
        tier,
    );
    lemma_count_tier_const(t1, player, 1, who, tier);
    lemma_count_tier_const(t2, player, 2, who, tier);
}

/// Milestone tiers are monotonic in score: over any run of outcomes, each
/// side's tier-1 events number exactly the five-point bands its score
/// crossed, floor(final/5) - floor(initial/5), however the hits and
/// failures were interleaved.
pub proof fn lemma_tier1_milestones(
    st: (int, int, int, int),
    basic: int,
    cs: int,
    evts: Seq<AttackEvent>,
)
    requires
        0 <= st.0,
        0 <= st.1,
        0 <= st.2,
        0 <= st.3,
        0 <= basic,
        0 <= cs,
    ensures
        count_tier(sys_gens(st, basic, cs, evts), 1, 1) == sys_run(st, basic, cs, evts).0 / 5
            - st.0 / 5,
        count_tier(sys_gens(st, basic, cs, evts), 2, 1) == sys_run(st, basic, cs, evts).2 / 5
            - st.2 / 5,
    decreases evts.len(),
{
    if evts.len() > 0 {
        let e = evts[0];
        let next = sys_step(st, basic, cs, e);
        lemma_count_tier_concat(
            step_gens(st, basic, e),
            sys_gens(next, basic, cs, evts.skip(1)),
            1,
            1,
        );
        lemma_count_tier_concat(
            step_gens(st, basic, e),
            sys_gens(next, basic, cs, evts.skip(1)),
            2,
            1,
        );
        if e.success {
            if e.player == 1 {
                lemma_count_milestones(1, st.0, st.1 + basic, 1, 1);
                lemma_count_milestones(1, st.0, st.1 + basic, 2, 1);
            } else {
                lemma_count_milestones(2, st.2, st.3 + basic, 1, 1);
                lemma_count_milestones(2, st.2, st.3 + basic, 2, 1);
            }
        }
        lemma_tier1_milestones(next, basic, cs, evts.skip(1));
    }
}

/// Headroom for one player's counters: enough room in `u64` for `n` more
/// outcomes, whatever they are. Each hit gains at most
/// `combo + basic + cs * n` points, and the combo grows by at most `cs * n`.
pub open spec fn score_headroom(score: int, combo: int, basic: int, cs: int, n: int) -> bool {
    &&& score + (combo + basic + cs * n) * n <= u64::MAX
    &&& combo + cs * n <= u64::MAX
}

/// Decides one player's headroom for `n` more outcomes.
pub fn headroom_check(score: u64, combo: u64, basic: u64, cs: u64, n: u64) -> (ok: bool)
    ensures
        ok == score_headroom(score as int, combo as int, basic as int, cs as int, n as int),
{
    if n == 0 {
        return true;
    }
    proof {
        assert(cs * n + combo + basic <= u128::MAX) by (nonlinear_arith)
            requires
                0 <= cs <= u64::MAX,
                0 <= n <= u64::MAX,
                0 <= combo <= u64::MAX,
                0 <= basic <= u64::MAX,
        ;
    }
    let csn: u128 = (cs as u128) * (n as u128);
    let inner: u128 = combo as u128 + basic as u128 + csn;
    if inner > u64::MAX as u128 {
        proof {
            assert((combo + basic + cs * n) * n >= combo + basic + cs * n) by (nonlinear_arith)
                requires
                    n >= 1,
                    combo + basic + cs * n >= 0,
            ;
        }
        return false;
    }
    proof {
        assert(score + inner * n <= u128::MAX) by (nonlinear_arith)
            requires
                0 <= score <= u64::MAX,
                0 <= inner <= u64::MAX,
                0 <= n <= u64::MAX,
        ;
    }
    let total: u128 = (score as u128) + inner * (n as u128);
    let c2: u128 = (combo as u128) + csn;
    total <= u64::MAX as u128 && c2 <= u64::MAX as u128
}

/// Headroom for `n` outcomes covers any actual run of at most `n` of them:
/// every step stays within `u64`.
pub proof fn lemma_headroom_fits(
    st: (int, int, int, int),
    basic: int,
    cs: int,
    evts: Seq<AttackEvent>,
    n: int,
)
    requires
        0 <= st.0,
        0 <= st.1,
        0 <= st.2,
        0 <= st.3,
        0 <= basic,
        0 <= cs,
        evts.len() <= n,
        score_headroom(st.0, st.1, basic, cs, n),
        score_headroom(st.2, st.3, basic, cs, n),
    ensures
        sys_fits(st, basic, cs, evts),
    decreases evts.len(),
{
    if evts.len() > 0 {
        let e = evts[0];
        let next = sys_step(st, basic, cs, e);
        assert(1 <= n);
        lemma_headroom_shrinks(st.0, st.1, basic, cs, n);
        lemma_headroom_shrinks(st.2, st.3, basic, cs, n);
        if e.success {
            if e.player == 1 {
                assert(step_fits(st, basic, cs, e));
            } else {
                assert(step_fits(st, basic, cs, e));
            }
        }
        lemma_headroom_fits(next, basic, cs, evts.skip(1), n - 1);
    }
}

/// From headroom for `n >= 1` outcomes at `(score, combo)`: the next step
/// fits, and each of its three possible results keeps headroom for `n - 1`.
proof fn lemma_headroom_shrinks(score: int, combo: int, basic: int, cs: int, n: int)
    requires
        0 <= score,
        0 <= combo,
        0 <= basic,
        0 <= cs,
        1 <= n,
        score_headroom(score, combo, basic, cs, n),
    ensures
        score + combo + basic <= u64::MAX,
        combo + cs <= u64::MAX,
        score_headroom(score, combo, basic, cs, n - 1),
        score_headroom(score + combo + basic, combo + cs, basic, cs, n - 1),
        score_headroom(score, 0, basic, cs, n - 1),
{
    let x = combo + basic + cs * n;
    let y = combo + basic + cs * (n - 1);
    let z = basic + cs * (n - 1);
    assert(cs * n >= 0) by (nonlinear_arith)
        requires
            cs >= 0,
            n >= 1,
    ;
    assert(cs * (n - 1) == cs * n - cs) by (nonlinear_arith);
    assert(cs * (n - 1) >= 0) by (nonlinear_arith)
        requires
            cs >= 0,
            n >= 1,
    ;
    assert(x * (n - 1) == x * n - x) by (nonlinear_arith);
    assert(x * (n - 1) >= 0) by (nonlinear_arith)
        requires
            x >= 0,
            n >= 1,
    ;
    assert(y * (n - 1) <= x * n) by (nonlinear_arith)
        requires
            0 <= y,
            y <= x,
            0 <= n - 1,
            n - 1 <= n,
    ;
    assert(z * (n - 1) <= x * n) by (nonlinear_arith)
        requires
            0 <= z,
            z <= x,
            0 <= n - 1,
            n - 1 <= n,
    ;
}

/// Whether `s + c + b` stays within `u64`.
fn add3_fits(s: u64, c: u64, b: u64) -> (r: bool)
    ensures
        r == (s + c + b <= u64::MAX),
{
    if b > u64::MAX - c {
        false
    } else {
        s <= u64::MAX - (c + b)
    }
}

/// Applies one outcome to one player's score and combo and returns the
/// milestone events it emits. A failure resets the combo and scores
/// nothing; a hit scores the combo before it grows, so the gain is
/// `combo + basic_score`.
pub fn score_step(
    score: &mut u64,
    combo: &mut u64,
    setting: &ScoreSetting,
    player: i32,
    success: bool,
) -> (evs: Vec<GenEvent>)
    requires
        success ==> *old(score) + *old(combo) + setting.basic_score <= u64::MAX && *old(combo)
            + setting.combo_score <= u64::MAX,
    ensures
        !success ==> *final(score) == *old(score) && *final(combo) == 0 && evs@ == Seq::<
            GenEvent,
        >::empty(),
        success ==> *final(score) == *old(score) + *old(combo) + setting.basic_score
            && *final(combo) == *old(combo) + setting.combo_score && evs@ == milestone_events(
            player,
            *old(score) as int,
            (*old(combo) + setting.basic_score) as int,
        ),
{
    let mut evs: Vec<GenEvent> = Vec::new();
    if success {
        let inc: u64 = *combo + setting.basic_score;
        let next: u64 = *score + inc;
        proof {
            lemma_div_is_ordered(*score as int, next as int, 5);
            lemma_div_is_ordered(*score as int, next as int, 10);
        }
        let g1: u64 = next / 5 - *score / 5;
        let g2: u64 = next / 10 - *score / 10;
        let new_combo: u64 = *combo + setting.combo_score;

        let mut i: u64 = 0;
        while i < g1
            invariant
                i <= g1,
                evs@.len() == i,
                forall|k: int|
                    0 <= k < evs@.len() ==> #[trigger] evs@[k] == (GenEvent { player, tier: 1 }),
            decreases g1 - i,
        {
            evs.push(GenEvent { player, tier: 1 });
            i = i + 1;
        }
        if g2 >= 2 {
            let mut j: u64 = 0;
            while j < g2
                invariant
                    j <= g2,
                    evs@.len() == g1 + j,
                    forall|k: int|
                        0 <= k < g1 ==> #[trigger] evs@[k] == (GenEvent { player, tier: 1 }),
                    forall|k: int|
                        g1 <= k < evs@.len() ==> #[trigger] evs@[k] == (GenEvent {
                            player,
                            tier: 2,
                        }),
                decreases g2 - j,
            {
                evs.push(GenEvent { player, tier: 2 });
                j = j + 1;
            }
        }
        proof {
            assert(evs@ =~= milestone_events(
                player,
                *old(score) as int,
                (*old(combo) + setting.basic_score) as int,
            ));
        }
        *score = next;
        *combo = new_combo;
    } else {
        *combo = 0;
    }
    evs
}

/// Drains a queue of attack outcomes in order, updating both players'
/// counters and collecting the milestone events they emit. The outcome of
/// the whole drain is exactly the fold of the single-outcome step.
pub fn score_system(
    counter: &mut CounterNumber,
    combo: &mut ComboNumber,
    setting: &ScoreSetting,
    events: &Vec<AttackEvent>,
) -> (gens: Vec<GenEvent>)
    requires
        sys_fits(
            board_view(*old(counter), *old(combo)),
            setting.basic_score as int,
            setting.combo_score as int,
            events@,
        ),
    ensures
        board_view(*final(counter), *final(combo)) == sys_run(
            board_view(*old(counter), *old(combo)),
            setting.basic_score as int,
            setting.combo_score as int,
            events@,
        ),
        gens@ == sys_gens(
            board_view(*old(counter), *old(combo)),
            setting.basic_score as int,
            setting.combo_score as int,
            events@,
        ),
{
    let ghost basic = setting.basic_score as int;
    let ghost cs = setting.combo_score as int;
    let ghost init = board_view(*counter, *combo);

    let mut score1: u64 = counter.score1;
    let mut combo1: u64 = combo.score1;
    let mut score2: u64 = counter.score2;
    let mut combo2: u64 = combo.score2;
    let mut gens: Vec<GenEvent> = Vec::new();

    proof {
        assert(events@.skip(0) =~= events@);
        assert(gens@ + sys_gens(init, basic, cs, events@) =~= sys_gens(init, basic, cs, events@));
    }
    let mut i: usize = 0;
    while i < events.len()
        invariant
            i <= events@.len(),
            basic == setting.basic_score as int,
            cs == setting.combo_score as int,
            sys_run((score1 as int, combo1 as int, score2 as int, combo2 as int), basic, cs,
                events@.skip(i as int)) == sys_run(init, basic, cs, events@),
            sys_fits((score1 as int, combo1 as int, score2 as int, combo2 as int), basic, cs,
                events@.skip(i as int)),
            gens@ + sys_gens((score1 as int, combo1 as int, score2 as int, combo2 as int), basic,
                cs, events@.skip(i as int)) == sys_gens(init, basic, cs, events@),
        decreases events@.len() - i,
    {
        let e = events[i];
        let ghost cur = (score1 as int, combo1 as int, score2 as int, combo2 as int);
        proof {
            assert(events@.skip(i as int)[0] == events@[i as int]);
            assert(events@.skip(i as int).skip(1) =~= events@.skip(i as int + 1));
        }
        let mut evs = if e.player == 1 {
            score_step(&mut score1, &mut combo1, setting, 1, e.success)
        } else {
            score_step(&mut score2, &mut combo2, setting, 2, e.success)
        };
        proof {
            let next = (score1 as int, combo1 as int, score2 as int, combo2 as int);
            assert(next == sys_step(cur, basic, cs, events@[i as int]));
            assert(evs@ == step_gens(cur, basic, events@[i as int]));
            assert(gens@ + evs@ + sys_gens(next, basic, cs, events@.skip(i as int + 1)) =~= gens@
                + (evs@ + sys_gens(next, basic, cs, events@.skip(i as int + 1))));
        }
        gens.append(&mut evs);
        i = i + 1;
    }
    proof {
        assert(events@.skip(events@.len() as int) =~= Seq::<AttackEvent>::empty());
        assert(gens@ + Seq::<GenEvent>::empty() =~= gens@);
    }
    counter.score1 = score1;
    counter.score2 = score2;
    combo.score1 = combo1;
    combo.score2 = combo2;
    gens
}

/// Decides, without changing anything, whether a whole queue of outcomes can
/// be applied to the counters without arithmetic overflow; the host checks
/// this before draining a frame's queue.
pub fn score_events_fit(
    counter: &CounterNumber,
    combo: &ComboNumber,
    setting: &ScoreSetting,
    events: &Vec<AttackEvent>,
) -> (ok: bool)
    ensures
        ok == sys_fits(
            board_view(*counter, *combo),
            setting.basic_score as int,
            setting.combo_score as int,
            events@,
        ),
{
    let ghost basic = setting.basic_score as int;
    let ghost cs = setting.combo_score as int;
    let ghost init = board_view(*counter, *combo);

    let mut score1: u64 = counter.score1;
    let mut combo1: u64 = combo.score1;
    let mut score2: u64 = counter.score2;
    let mut combo2: u64 = combo.score2;

    proof {
        assert(events@.skip(0) =~= events@);
    }
    let mut i: usize = 0;
    while i < events.len()
        invariant
            i <= events@.len(),
            basic == setting.basic_score as int,
            cs == setting.combo_score as int,
            init == board_view(*counter, *combo),
            sys_fits(init, basic, cs, events@) == sys_fits((score1 as int, combo1 as int,
                score2 as int, combo2 as int), basic, cs, events@.skip(i as int)),
        decreases events@.len() - i,
    {
        let e = events[i];
        let ghost cur = (score1 as int, combo1 as int, score2 as int, combo2 as int);
        proof {
            assert(events@.skip(i as int)[0] == events@[i as int]);
            assert(events@.skip(i as int).skip(1) =~= events@.skip(i as int + 1));
        }
        if e.success {
            if e.player == 1 {
                if !add3_fits(score1, combo1, setting.basic_score) || combo1 > u64::MAX
                    - setting.combo_score {
                    proof {
                        assert(!step_fits(cur, basic, cs, events@[i as int]));
                        assert(!sys_fits(cur, basic, cs, events@.skip(i as int)));
                    }
                    return false;
                }
                score1 = score1 + combo1 + setting.basic_score;
                combo1 = combo1 + setting.combo_score;
            } else {
                if !add3_fits(score2, combo2, setting.basic_score) || combo2 > u64::MAX
                    - setting.combo_score {
                    proof {
                        assert(!step_fits(cur, basic, cs, events@[i as int]));
                        assert(!sys_fits(cur, basic, cs, events@.skip(i as int)));
                    }
                    return false;
                }
                score2 = score2 + combo2 + setting.basic_score;
                combo2 = combo2 + setting.combo_score;
            }
        } else {
            if e.player == 1 {
                combo1 = 0;
            } else {
                combo2 = 0;
            }
        }
        i = i + 1;
    }
    proof {
        assert(events@.skip(events@.len() as int) =~= Seq::<AttackEvent>::empty());
    }
    true
}

} // verus!
