use vstd::prelude::*;

use crate::game::{spec_load_high_score, spec_start_round, RoundValues};
use crate::level::{
    rules_of, spec_after_win, spec_definition_index, spec_level_rules, spec_next, CurrentLevel,
    Difficulty, LEVEL_COUNT,
};
use crate::firefly::{count_true, wins_round};
use crate::rain::{cooldown_after_hit, lives_after_hit, rain_hits, spec_rain_base_speed};
use crate::text::{decimal, lemma_decimal_digits, lemma_decimal_parses};
use crate::firefly::score_run;
use crate::level::spec_level_name;
use crate::player::axis;
use crate::timer::{spec_tick, tick_all, total, GameTimer};
use crate::ui::{
    hearts, spec_level_after_input, spec_screen_input, spec_storm_label, storm_level, KeyPresses,
};
use crate::firefly::true_positions;
use crate::game::GameState;

verus! {

/// A saved best score is read back unchanged when the game starts again.
pub proof fn lemma_high_score_round_trip(score: u32)
    ensures
        spec_load_high_score(Some(decimal(score as nat))) == score,
{
    lemma_decimal_parses(score);
}

/// Cycling the difficulty three times comes back to where it started, and
/// every step changes it.
pub proof fn lemma_difficulty_cycle(d: Difficulty)
    ensures
        spec_next(spec_next(spec_next(d))) == d,
        spec_next(d) != d,
{
}

proof fn lemma_finished_once_stays(t: GameTimer, deltas: Seq<u64>)
    requires
        !t.repeating,
        t.finished,
    ensures
        tick_all(t, deltas).finished,
        tick_all(t, deltas).elapsed == t.elapsed,
    decreases deltas.len(),
{
    if deltas.len() > 0 {
        lemma_finished_once_stays(spec_tick(t, deltas[0]), deltas.drop_first());
    }
}

proof fn lemma_once_timer_window(t: GameTimer, deltas: Seq<u64>)
    requires
        !t.repeating,
        !t.finished,
        t.elapsed < t.duration,
    ensures
        tick_all(t, deltas).finished <==> t.elapsed + total(deltas) >= t.duration,
        tick_all(t, deltas).elapsed == (if t.elapsed + total(deltas) < t.duration {
            t.elapsed + total(deltas)
        } else {
            t.duration as int
        }),
    decreases deltas.len(),
{
    if deltas.len() > 0 {
        let next = spec_tick(t, deltas[0]);
        lemma_total_nonnegative(deltas.drop_first());
        if t.elapsed + deltas[0] < t.duration {
            lemma_once_timer_window(next, deltas.drop_first());
        } else {
            lemma_finished_once_stays(next, deltas.drop_first());
        }
    }
}

proof fn lemma_total_nonnegative(deltas: Seq<u64>)
    ensures
        total(deltas) >= 0,
    decreases deltas.len(),
{
    if deltas.len() > 0 {
        lemma_total_nonnegative(deltas.drop_first());
    }
}

/// After a hit the salamander is invulnerable for exactly the cooldown's
/// duration: whatever frames follow, the cooldown's elapsed time is the sum of
/// their times, capped at its duration; the cooldown is over once (and only
/// once) their times add up to its duration, so until then no raindrop costs a
/// life.
pub proof fn lemma_invulnerable_after_hit(cooldown: GameTimer, deltas: Seq<u64>, overlapping: Seq<bool>)
    requires
        !cooldown.repeating,
        cooldown.duration > 0,
    ensures
        tick_all(cooldown_after_hit(cooldown), deltas).finished <==> total(deltas)
            >= cooldown.duration,
        tick_all(cooldown_after_hit(cooldown), deltas).elapsed == (if total(deltas)
            < cooldown.duration {
            total(deltas)
        } else {
            cooldown.duration as int
        }),
        total(deltas) < cooldown.duration ==> !rain_hits(
            tick_all(cooldown_after_hit(cooldown), deltas),
            overlapping,
        ),
{
    lemma_once_timer_window(cooldown_after_hit(cooldown), deltas);
}

/// A fresh round, on any level, starts with three lives and is lost on the
/// third hit, not before.
pub proof fn lemma_three_hits_lose(level: CurrentLevel)
    ensures
        ({
            let lives = rules_of(level).starting_lives;
            &&& lives == 3
            &&& lives_after_hit(lives) != 0
            &&& lives_after_hit(lives_after_hit(lives)) != 0
            &&& lives_after_hit(lives_after_hit(lives_after_hit(lives))) == 0
        }),
{
}

/// Pausing and resuming with P or Escape comes back to the same round:
/// Playing goes to Paused, Paused goes back to Playing, and entering Playing
/// with the round still active changes nothing.
pub proof fn lemma_pause_resume_keeps_round(keys: KeyPresses, round: RoundValues, level: CurrentLevel)
    requires
        keys.p || keys.escape,
        round.0,
    ensures
        spec_screen_input(GameState::Playing, keys) == Some(GameState::Paused),
        spec_screen_input(GameState::Paused, keys) == Some(GameState::Playing),
        spec_level_after_input(GameState::Playing, Some(GameState::Paused), level) == level,
        spec_level_after_input(GameState::Paused, Some(GameState::Playing), level) == level,
        spec_start_round(round, rules_of(level)) == round,
{
}

/// Going back to the menu ends the round, so the next start is a fresh round
/// of the current level: no fireflies, the level's lives, the level's rain
/// interval, and the round active again.
pub proof fn lemma_restart_from_menu_is_fresh(round: RoundValues, level: CurrentLevel)
    ensures
        ({
            let left: RoundValues = (false, round.1, round.2, round.3, round.4);
            let next = spec_start_round(left, rules_of(level));
            &&& next.0 && next.1 == 0 && next.2 == rules_of(level).starting_lives
            &&& next.4.duration == rules_of(level).rain_interval_millis * 1_000_000
            &&& next.4.elapsed == 0
        }),
{
}

/// The storm indicator never calms down as the score grows.
pub proof fn lemma_storm_level_monotone(a: u32, b: u32)
    requires
        a <= b,
    ensures
        storm_level(a) <= storm_level(b),
{
}

/// Each firefly collected makes the rain fall faster.
pub proof fn lemma_rain_speed_increases(level: CurrentLevel, a: u32, b: u32)
    requires
        a < b,
    ensures
        spec_rain_base_speed(level, a) < spec_rain_base_speed(level, b),
{
}

/// Each level is harder than the one before: more fireflies to collect,
/// faster rain, and more frequent rain.
pub proof fn lemma_later_levels_are_harder(i: usize, j: usize)
    requires
        i < j < LEVEL_COUNT,
    ensures
        spec_level_rules(i).firefly_goal < spec_level_rules(j).firefly_goal,
        spec_level_rules(i).rain_speed < spec_level_rules(j).rain_speed,
        spec_level_rules(i).rain_interval_millis > spec_level_rules(j).rain_interval_millis,
{
}

/// Playing again from the win screen (Enter or R) moves on to the next level,
/// the first again after the last; playing again after a loss retries the
/// same level, and going back to the menu keeps it.
pub proof fn lemma_replay_levels(keys: KeyPresses, level: CurrentLevel)
    ensures
        keys.enter || keys.r ==> spec_level_after_input(
            GameState::Won,
            spec_screen_input(GameState::Won, keys),
            level,
        ).0 == spec_after_win(level.0),
        spec_level_after_input(GameState::Lost, spec_screen_input(GameState::Lost, keys), level)
            == level,
        !(keys.enter || keys.r) ==> spec_level_after_input(
            GameState::Won,
            spec_screen_input(GameState::Won, keys),
            level,
        ) == level,
{
}

/// A level is final exactly when its definition is the last one of the table.
pub proof fn lemma_final_level_is_last_definition(level: usize)
    ensures
        (level + 1 >= LEVEL_COUNT) <==> spec_definition_index(level) == LEVEL_COUNT - 1,
{
}

/// How many times `c` occurs in `s`.
pub open spec fn occurrences(s: Seq<char>, c: char) -> nat
    decreases s.len(),
{
    if s.len() == 0 {
        0
    } else {
        occurrences(s.drop_last(), c) + (if s.last() == c { 1nat } else { 0nat })
    }
}

/// The HUD shows one heart per life.
pub proof fn lemma_one_heart_per_life(lives: nat)
    ensures
        occurrences(hearts(lives), '\u{2665}') == lives,
    decreases lives,
{
    if lives > 1 {
        lemma_one_heart_per_life((lives - 1) as nat);
        let h = hearts(lives);
        let p = hearts((lives - 1) as nat);
        assert(h.drop_last() =~= p.push(' '));
        assert(p.push(' ').drop_last() =~= p);
        assert(occurrences(p.push(' '), '\u{2665}') == occurrences(p, '\u{2665}'));
        assert(h.last() == '\u{2665}');
        assert(occurrences(h, '\u{2665}') == occurrences(p.push(' '), '\u{2665}') + 1);
    } else if lives == 1 {
        assert(hearts(1).drop_last() =~= Seq::<char>::empty());
        assert(occurrences(hearts(1), '\u{2665}') == occurrences(Seq::<char>::empty(), '\u{2665}') + 1);
    }
}

/// Winning three times in a row comes back to the same level, going through
/// every level of the table.
pub proof fn lemma_levels_cycle(level: usize)
    requires
        level < LEVEL_COUNT,
    ensures
        spec_after_win(spec_after_win(spec_after_win(level))) == level,
        spec_after_win(level) != level,
        spec_after_win(level) < LEVEL_COUNT,
{
}

/// The fireflies collected over `frames`, starting from a score of zero, up
/// to (not including) frame `k`.
pub open spec fn collected_before(frames: Seq<Seq<bool>>, k: int) -> int
    decreases k,
{
    if k <= 0 {
        0
    } else {
        collected_before(frames, k - 1) + count_true(frames[k - 1])
    }
}

proof fn lemma_some_frame_wins(goal: u32, frames: Seq<Seq<bool>>, k: int)
    requires
        0 <= k <= frames.len(),
        goal > 0,
        collected_before(frames, k) >= goal,
    ensures
        exists|j: int|
            0 <= j < k && wins_round(goal, collected_before(frames, j), #[trigger] frames[j]),
    decreases k,
{
    if collected_before(frames, k - 1) >= goal {
        lemma_some_frame_wins(goal, frames, k - 1);
        let j = choose|j: int|
            0 <= j < k - 1 && wins_round(goal, collected_before(frames, j), #[trigger] frames[j]);
        assert(0 <= j < k && wins_round(goal, collected_before(frames, j), frames[j]));
    } else {
        assert(wins_round(goal, collected_before(frames, k - 1), frames[k - 1]));
    }
}

/// Collecting every firefly a level places (its firefly goal), over any number
/// of frames starting from a fresh score of zero, wins the round in one of
/// those frames.
pub proof fn lemma_collecting_every_firefly_wins(level: CurrentLevel, frames: Seq<Seq<bool>>)
    requires
        collected_before(frames, frames.len() as int) == rules_of(level).firefly_goal,
    ensures
        exists|j: int|
            0 <= j < frames.len() && wins_round(
                rules_of(level).firefly_goal,
                collected_before(frames, j),
                #[trigger] frames[j],
            ),
{
    lemma_some_frame_wins(rules_of(level).firefly_goal, frames, frames.len() as int);
}

/// A frame wins the round exactly when it collects at least one firefly and
/// the score after it reaches the level's firefly goal; a frame that ends
/// below the goal never wins.
pub proof fn lemma_win_only_at_goal(goal: u32, score: int, touching: Seq<bool>)
    ensures
        wins_round(goal, score, touching) ==> score + count_true(touching) >= goal,
        wins_round(goal, score, touching) ==> count_true(touching) >= 1,
        score + count_true(touching) < goal ==> !wins_round(goal, score, touching),
        count_true(touching) >= 1 && score + count_true(touching) >= goal ==> wins_round(
            goal,
            score,
            touching,
        ),
{
}

/// The fireflies counted as collected are exactly those in reach, each once,
/// in order: every listed position is in range and marked, positions strictly
/// increase, and every marked position is listed.
pub proof fn lemma_collected_are_exactly_the_touched(flags: Seq<bool>)
    requires
        flags.len() <= usize::MAX,
    ensures
        count_true(flags) <= flags.len(),
        forall|k: int|
            0 <= k < true_positions(flags).len() ==> {
                let p = #[trigger] true_positions(flags)[k];
                &&& p < flags.len()
                &&& flags[p as int]
            },
        forall|k: int, l: int|
            0 <= k < l < true_positions(flags).len() ==> #[trigger] true_positions(flags)[k]
                < #[trigger] true_positions(flags)[l],
        forall|i: int| 0 <= i < flags.len() && flags[i] ==> #[trigger] true_positions(flags).contains(i as usize),
    decreases flags.len(),
{
    if flags.len() > 0 {
        let rest = flags.drop_last();
        lemma_collected_are_exactly_the_touched(rest);
        let tp = true_positions(flags);
        let tr = true_positions(rest);
        assert(tp == (if flags.last() { tr.push((flags.len() - 1) as usize) } else { tr }));
        assert forall|j: int| 0 <= j < rest.len() implies rest[j] == flags[j] by {}
        assert forall|k: int| 0 <= k < tp.len() implies {
            let p = #[trigger] tp[k];
            &&& p < flags.len()
            &&& flags[p as int]
        } by {
            if k < tr.len() {
                assert(tp[k] == tr[k]);
                assert(rest[tr[k] as int] == flags[tr[k] as int]);
            }
        }
        assert forall|k: int, l: int| 0 <= k < l < tp.len() implies #[trigger] tp[k] < #[trigger] tp[l] by {
            assert(tp[k] == tr[k]);
            if l < tr.len() {
                assert(tp[l] == tr[l]);
            } else {
                let q = tr[k];
                assert(q < rest.len());
            }
        }
        assert forall|i: int| 0 <= i < flags.len() && flags[i] implies #[trigger] tp.contains(i as usize) by {
            if i < flags.len() - 1 {
                assert(rest[i] == flags[i]);
                assert(tr.contains(i as usize));
                let k = choose|k: int| 0 <= k < tr.len() && tr[k] == i as usize;
                assert(tp[k] == tr[k]);
            } else {
                assert(tp[tp.len() - 1] == i as usize);
            }
        }
    }
}

/// On the title screen only Enter or Space starts the game, and nothing else
/// happens there; on no screen do keys alone lead to the win or loss screens.
pub proof fn lemma_menu_starts_on_enter_or_space(keys: KeyPresses, state: GameState)
    ensures
        spec_screen_input(GameState::Menu, keys) == Some(GameState::Playing) <==> keys.enter
            || keys.space,
        spec_screen_input(GameState::Menu, keys) is None <==> !(keys.enter || keys.space),
        spec_screen_input(state, keys) != Some(GameState::Won),
        spec_screen_input(state, keys) != Some(GameState::Lost),
        spec_screen_input(state, keys) != Some(state),
{
}

/// Starting a round never changes the hit cooldown's length or kind: a fresh
/// round sets its elapsed time to its own duration and nothing more.
pub proof fn lemma_fresh_round_keeps_cooldown(round: RoundValues, level: CurrentLevel)
    ensures
        spec_start_round(round, rules_of(level)).3.duration == round.3.duration,
        spec_start_round(round, rules_of(level)).3.repeating == round.3.repeating,
        spec_start_round(round, rules_of(level)).3.finished == round.3.finished,
        !round.0 ==> spec_start_round(round, rules_of(level)).3.elapsed == round.3.duration,
        round.0 ==> spec_start_round(round, rules_of(level)).3 == round.3,
{
}

/// Only playing again from the win screen changes the level; leaving any other
/// screen (in particular starting from the title screen) keeps it, and the win
/// screen moves it on by exactly one, back to the first after the last.
pub proof fn lemma_only_a_win_advances_the_level(
    state: GameState,
    next: Option<GameState>,
    level: CurrentLevel,
)
    ensures
        state != GameState::Won ==> spec_level_after_input(state, next, level) == level,
        next != Some(GameState::Playing) ==> spec_level_after_input(state, next, level) == level,
        state == GameState::Won && next == Some(GameState::Playing) ==> {
            let after = spec_level_after_input(state, next, level).0;
            &&& level.0 + 1 < LEVEL_COUNT ==> after == level.0 + 1
            &&& level.0 + 1 >= LEVEL_COUNT ==> after == 0
        },
{
}

/// The storm indicator reads CALM up to 4 fireflies, RISING from 5 to 9,
/// HEAVY from 10 to 14 and FIERCE from 15 on, so it never calms down as the
/// score grows.
pub proof fn lemma_storm_labels(score: u32, later: u32)
    ensures
        score <= 4 ==> spec_storm_label(score) == "CALM"@,
        5 <= score <= 9 ==> spec_storm_label(score) == "RISING"@,
        10 <= score <= 14 ==> spec_storm_label(score) == "HEAVY"@,
        15 <= score ==> spec_storm_label(score) == "FIERCE"@,
        score <= later && spec_storm_label(later) == "CALM"@ ==> spec_storm_label(score) == "CALM"@,
{
    reveal_strlit("CALM");
    reveal_strlit("RISING");
    reveal_strlit("HEAVY");
    reveal_strlit("FIERCE");
}

/// A hit costs exactly one life while any are left, and none below zero.
pub proof fn lemma_hit_costs_one_life(lives: u32)
    ensures
        lives > 0 ==> lives_after_hit(lives) == lives - 1,
        lives == 0 ==> lives_after_hit(lives) == 0,
        lives_after_hit(lives) <= lives,
{
}

/// The decimal text of a number is made of the characters '0' to '9' only,
/// is never empty, and has no leading zero unless the number is zero.
pub proof fn lemma_decimal_is_plain_digits(n: u32)
    ensures
        decimal(n as nat).len() > 0,
        forall|i: int|
            0 <= i < decimal(n as nat).len() ==> '0' <= #[trigger] decimal(n as nat)[i] && decimal(
                n as nat,
            )[i] <= '9',
        n > 0 ==> decimal(n as nat)[0] != '0',
        n == 0 ==> decimal(n as nat) == seq!['0'],
{
    lemma_decimal_digits(n as nat);
    if n == 0 {
        assert(decimal(0) =~= seq!['0']);
    }
}

/// Reading a file that could not be read gives a best score of zero.
pub proof fn lemma_no_file_no_best_score()
    ensures
        spec_load_high_score(None) == 0,
{
}

/// A one-shot timer, until it finishes, counts the ticks' total, capped at
/// its duration, and finishes (once) when the total reaches the duration; a
/// finished one-shot timer stays put. A repeating timer keeps what is left
/// over after whole periods and counts the whole periods. A tick never changes
/// a timer's duration or kind.
pub proof fn lemma_timer_ticks(t: GameTimer, delta: u64)
    requires
        t.repeating && t.duration > 0 ==> (t.elapsed + delta) / (t.duration as int) <= u32::MAX,
    ensures
        spec_tick(t, delta).duration == t.duration,
        spec_tick(t, delta).repeating == t.repeating,
        !t.repeating && !t.finished ==> {
            let n = spec_tick(t, delta);
            &&& n.finished == (t.elapsed + delta >= t.duration)
            &&& n.elapsed == (if t.elapsed + delta >= t.duration {
                t.duration as int
            } else {
                t.elapsed + delta
            })
            &&& n.times_finished_this_tick == (if n.finished { 1u32 } else { 0u32 })
        },
        !t.repeating && t.finished ==> {
            let n = spec_tick(t, delta);
            &&& n.finished
            &&& n.elapsed == t.elapsed
            &&& n.times_finished_this_tick == 0
        },
        t.repeating && t.duration > 0 ==> {
            let n = spec_tick(t, delta);
            &&& n.elapsed < t.duration
            &&& n.times_finished_this_tick * t.duration + n.elapsed == t.elapsed + delta
            &&& n.finished == (n.times_finished_this_tick > 0)
        },
{
    if t.repeating && t.duration > 0 {
        let total = t.elapsed + delta;
        let d = t.duration as int;
        assert(total == (total / d) * d + total % d) by (nonlinear_arith)
            requires
                d > 0,
        ;
        assert(0 <= total % d < d) by (nonlinear_arith)
            requires
                d > 0,
        ;
        if total >= d {
            assert(total / d >= 1) by (nonlinear_arith)
                requires
                    d > 0,
                    total >= d,
            ;
        }
        if total < d {
            assert(total / d == 0) by (nonlinear_arith)
                requires
                    d > 0,
                    0 <= total < d,
            ;
        }
    }
}

/// A hit restarts the cooldown: not finished, nothing elapsed, same duration
/// and kind.
pub proof fn lemma_hit_restarts_cooldown(cooldown: GameTimer)
    ensures
        !cooldown_after_hit(cooldown).finished,
        cooldown_after_hit(cooldown).elapsed == 0,
        cooldown_after_hit(cooldown).duration == cooldown.duration,
        cooldown_after_hit(cooldown).repeating == cooldown.repeating,
{
}

/// Each firefly adds exactly 18 pixels per second to the rain, starting from
/// the level's own rain speed.
pub proof fn lemma_rain_speed_per_firefly(level: CurrentLevel, score: u32)
    ensures
        spec_rain_base_speed(level, 0) == rules_of(level).rain_speed,
        score < u32::MAX ==> spec_rain_base_speed(level, (score + 1) as u32) == spec_rain_base_speed(
            level,
            score,
        ) + 18,
{
}

/// The level table: Firefly Marsh (12 fireflies), Moonlit Fen (16) and
/// Tempest Grove (20), each with three lives, rain every 280, 210 and 150
/// milliseconds falling at 330, 410 and 500 pixels per second; any level past
/// the last plays as the last.
pub proof fn lemma_level_table(level: CurrentLevel)
    ensures
        level.0 == 0 ==> rules_of(level).firefly_goal == 12 && rules_of(level).rain_speed == 330
            && rules_of(level).rain_interval_millis == 280 && spec_level_name(
            spec_definition_index(level.0),
        ) == "Firefly Marsh"@,
        level.0 == 1 ==> rules_of(level).firefly_goal == 16 && rules_of(level).rain_speed == 410
            && rules_of(level).rain_interval_millis == 210 && spec_level_name(
            spec_definition_index(level.0),
        ) == "Moonlit Fen"@,
        level.0 >= 2 ==> rules_of(level).firefly_goal == 20 && rules_of(level).rain_speed == 500
            && rules_of(level).rain_interval_millis == 150 && spec_level_name(
            spec_definition_index(level.0),
        ) == "Tempest Grove"@,
        rules_of(level).starting_lives == 3,
{
}

/// The best scores saved in a frame are each one more than the one before,
/// starting just above the old best (or the old score, if higher), and end at
/// the new score.
pub proof fn lemma_saves_climb_to_the_new_score(first: int, last: int)
    requires
        0 <= first,
        last <= u32::MAX,
    ensures
        score_run(first, last).len() == (if last >= first { last - first + 1 } else { 0 }),
        score_run(first, last).len() > 0 ==> score_run(first, last)[0] == first,
        score_run(first, last).len() > 0 ==> score_run(first, last).last() == last,
        forall|j: int|
            0 <= j < score_run(first, last).len() - 1 ==> #[trigger] score_run(first, last)[j + 1]
                == score_run(first, last)[j] + 1,
{
}

/// Steering on one axis: +1 when only the forward key is held, -1 when only
/// the backward key is, 0 when both or neither are.
pub proof fn lemma_axis(plus: bool, minus: bool)
    ensures
        plus && !minus ==> axis(plus, minus) == 1,
        !plus && minus ==> axis(plus, minus) == -1,
        plus == minus ==> axis(plus, minus) == 0,
{
}

/// For `n` lives the HUD shows `n` hearts with a single space between each
/// two: hearts at even positions, spaces at odd ones, nothing around them.
pub proof fn lemma_hearts_shape(n: nat)
    ensures
        n == 0 ==> hearts(n).len() == 0,
        n > 0 ==> hearts(n).len() == 2 * n - 1,
        forall|i: int|
            0 <= i < hearts(n).len() ==> #[trigger] hearts(n)[i] == (if i % 2 == 0 {
                '\u{2665}'
            } else {
                ' '
            }),
    decreases n,
{
    if n > 1 {
        lemma_hearts_shape((n - 1) as nat);
        let p = hearts((n - 1) as nat);
        assert forall|i: int| 0 <= i < hearts(n).len() implies #[trigger] hearts(n)[i] == (if i % 2
            == 0 {
            '\u{2665}'
        } else {
            ' '
        }) by {
            if i < p.len() {
                assert(hearts(n)[i] == p[i]);
            }
        }
    }
}

} // verus!
