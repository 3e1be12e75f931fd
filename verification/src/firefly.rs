use vstd::prelude::*;

use crate::game::{GameState, HighScore, Score, SessionActive};
use crate::level::{rules_of, CurrentLevel};

verus! {

/// The positions of the `true` entries of `flags`, in order.
pub open spec fn true_positions(flags: Seq<bool>) -> Seq<usize>
    decreases flags.len(),
{
    if flags.len() == 0 {
        Seq::empty()
    } else {
        let rest = true_positions(flags.drop_last());
        if flags.last() {
            rest.push((flags.len() - 1) as usize)
        } else {
            rest
        }
    }
}

/// How many entries of `flags` are `true`.
pub open spec fn count_true(flags: Seq<bool>) -> nat {
    true_positions(flags).len()
}

/// The scores `first`, `first + 1`, ..., `last` (none when `last < first`).
pub open spec fn score_run(first: int, last: int) -> Seq<u32> {
    Seq::new(if last >= first { (last - first + 1) as nat } else { 0 }, |j: int| (first + j) as u32)
}

/// Whether a frame that starts at `score` and reaches the fireflies marked in
/// `touching` wins a round whose firefly goal is `goal`.
pub open spec fn wins_round(goal: u32, score: int, touching: Seq<bool>) -> bool {
    count_true(touching) > 0 && score + count_true(touching) >= goal
}

/// What a frame's firefly check decided.
pub struct CollectOutcome {
    /// The fireflies picked up (positions in the list that was checked), in
    /// order; the caller removes each and sends a collection effect for it.
    pub collected: Vec<usize>,
    /// Each new best score, in the order it was reached; the caller saves each.
    pub saved: Vec<u32>,
    /// The screen to go to, if the round was won.
    pub next_state: Option<GameState>,
}

proof fn lemma_count_take_step(flags: Seq<bool>, i: int)
    requires
        0 <= i < flags.len(),
    ensures
        true_positions(flags.take(i + 1)) == (if flags[i] {
            true_positions(flags.take(i)).push(i as usize)
        } else {
            true_positions(flags.take(i))
        }),
{
    assert(flags.take(i + 1).drop_last() =~= flags.take(i));
}

proof fn lemma_count_take_monotone(flags: Seq<bool>, i: int, j: int)
    requires
        0 <= i <= j <= flags.len(),
    ensures
        count_true(flags.take(i)) <= count_true(flags.take(j)),
    decreases j - i,
{
    if i < j {
        lemma_count_take_step(flags, j - 1);
        lemma_count_take_monotone(flags, i, j - 1);
    }
}

/// The salamander picks up fireflies. `touching[i]` says whether firefly `i`
/// is within reach. Each one in reach is collected and adds one to the score;
/// whenever a collection takes the score past the best score, the best score
/// follows it and is saved; once the score reaches the level's firefly goal
/// the round ends and the game goes to `Won`.
pub fn collect_firefly(
    score: &mut Score,
    high_score: &mut HighScore,
    session: &mut SessionActive,
    touching: &Vec<bool>,
    level: &CurrentLevel,
) -> (outcome: CollectOutcome)
    requires
        old(score).0 + count_true(touching@) <= u32::MAX,
    ensures
        outcome.collected@ == true_positions(touching@),
        final(score).0 == old(score).0 + count_true(touching@),
        final(high_score).0 == (if count_true(touching@) > 0 && final(score).0 > old(high_score).0 {
            final(score).0
        } else {
            old(high_score).0
        }),
        final(high_score).0 >= old(high_score).0,
        count_true(touching@) > 0 ==> final(high_score).0 >= final(score).0,
        outcome.next_state == Some(GameState::Won) ==> old(score).0 + count_true(touching@)
            >= rules_of(*level).firefly_goal,
        outcome.next_state == Some(GameState::Won) ==> count_true(touching@) > 0,
        old(score).0 + count_true(touching@) < rules_of(*level).firefly_goal ==> {
            &&& outcome.next_state is None
            &&& *final(session) == *old(session)
        },
        count_true(touching@) == 0 ==> {
            &&& outcome.next_state is None
            &&& *final(session) == *old(session)
        },
        count_true(touching@) > 0 && old(score).0 + count_true(touching@)
            >= rules_of(*level).firefly_goal ==> {
            &&& outcome.next_state == Some(GameState::Won)
            &&& !final(session).0
        },
        outcome.next_state is None || outcome.next_state == Some(GameState::Won),
        outcome.saved@ == score_run(
            (if old(score).0 > old(high_score).0 { old(score).0 } else { old(high_score).0 }) + 1,
            final(score).0 as int,
        ),
        wins_round(rules_of(*level).firefly_goal, old(score).0 as int, touching@) ==> {
            &&& !final(session).0
            &&& outcome.next_state == Some(GameState::Won)
        },
        !wins_round(rules_of(*level).firefly_goal, old(score).0 as int, touching@) ==> {
            &&& *final(session) == *old(session)
            &&& outcome.next_state is None
        },
{
    let goal = level.level_rules().firefly_goal;
    let ghost score0 = score.0;
    let ghost high0 = high_score.0;
    let ghost best0: int = if score0 > high0 { score0 as int } else { high0 as int };
    let mut collected: Vec<usize> = Vec::new();
    let mut saved: Vec<u32> = Vec::new();
    let mut next_state: Option<GameState> = None;
    let mut i: usize = 0;
    proof {
        assert(touching@.take(0) =~= Seq::<bool>::empty());
    }
    while i < touching.len()
        invariant
            0 <= i <= touching@.len(),
            score0 + count_true(touching@) <= u32::MAX,
            collected@ == true_positions(touching@.take(i as int)),
            score.0 == score0 + count_true(touching@.take(i as int)),
            high_score.0 == (if count_true(touching@.take(i as int)) > 0 && score.0 > high0 {
                score.0
            } else {
                high0
            }),
            saved@ == score_run(best0 + 1, score.0 as int),
            count_true(touching@.take(i as int)) > 0 && score.0 >= goal ==> {
                &&& !session.0
                &&& next_state == Some(GameState::Won)
            },
            !(count_true(touching@.take(i as int)) > 0 && score.0 >= goal) ==> {
                &&& *session == *old(session)
                &&& next_state is None
            },
            best0 == (if score0 > high0 { score0 as int } else { high0 as int }),
            goal == rules_of(*level).firefly_goal,
        decreases touching@.len() - i,
    {
        proof {
            lemma_count_take_step(touching@, i as int);
            lemma_count_take_monotone(touching@, i as int + 1, touching@.len() as int);
            assert(touching@.take(touching@.len() as int) =~= touching@);
        }
        if touching[i] {
            collected.push(i);
            score.0 = score.0 + 1;
            if score.0 > high_score.0 {
                high_score.0 = score.0;
                saved.push(high_score.0);
            }
            if score.0 >= goal {
                session.0 = false;
                next_state = Some(GameState::Won);
            }
        }
        proof {
            assert(saved@ =~= score_run(best0 + 1, score.0 as int));
        }
        i = i + 1;
    }
    proof {
        assert(touching@.take(touching@.len() as int) =~= touching@);
    }
    CollectOutcome { collected, saved, next_state }
}

} // verus!
