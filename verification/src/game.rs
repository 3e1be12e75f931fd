use vstd::prelude::*;

use crate::level::{CurrentLevel, LevelRules, rules_of};
use crate::rain::RainTimer;
use crate::text::{decimal, decimal_text, parse_trimmed_u32, parse_u32, trim};
use crate::timer::{spec_tick, GameTimer};

verus! {

/// How long the salamander stays invulnerable after a hit: one second.
pub const HIT_COOLDOWN_NANOS: u64 = 1_000_000_000;

/// The screens of the game.
#[derive(Clone, Copy, PartialEq, Eq, Structural, Debug, Hash, Default)]
pub enum GameState {
    #[default]
    Menu,
    Playing,
    Paused,
    Won,
    Lost,
}

/// Fireflies collected in the current round.
#[derive(Clone, Copy, PartialEq, Eq, Structural, Debug, Default)]
pub struct Score(pub u32);

/// The best score reached so far.
#[derive(Clone, Copy, PartialEq, Eq, Structural, Debug)]
pub struct HighScore(pub u32);

/// Lives left in the current round.
#[derive(Clone, Copy, PartialEq, Eq, Structural, Debug)]
pub struct Lives(pub u32);

/// Whether a round is under way (kept while paused).
#[derive(Clone, Copy, PartialEq, Eq, Structural, Debug, Default)]
pub struct SessionActive(pub bool);

/// Invulnerability after a hit: rain costs no life while this one-shot timer runs.
#[derive(Clone, Copy, PartialEq, Eq, Structural, Debug)]
pub struct HitCooldown(pub GameTimer);

impl HitCooldown {
    /// The cooldown as the game starts it: a one-shot timer of `duration`
    /// nanoseconds whose elapsed time was set to its full duration.
    pub fn new(duration: u64) -> (c: HitCooldown)
        ensures
            c.0 == (GameTimer {
                duration,
                elapsed: duration,
                repeating: false,
                finished: false,
                times_finished_this_tick: 0,
            }),
    {
        let mut timer = GameTimer::new(duration, false);
        let d = timer.duration();
        timer.set_elapsed(d);
        HitCooldown(timer)
    }
}

/// A round's resources as plain values: whether it is active, the score, the
/// lives, the hit cooldown and the rain timer.
pub type RoundValues = (bool, u32, u32, GameTimer, GameTimer);

/// Entering the playing screen, on plain values, for a level with `rules`:
/// an active round stays as it is; otherwise a fresh round starts with the
/// level's lives and the level's rain interval.
pub open spec fn spec_start_round(r: RoundValues, rules: LevelRules) -> RoundValues {
    if r.0 {
        r
    } else {
        (
            true,
            0,
            rules.starting_lives,
            GameTimer { elapsed: r.3.duration, ..r.3 },
            GameTimer {
                duration: (rules.rain_interval_millis * 1_000_000) as u64,
                elapsed: 0,
                finished: false,
                times_finished_this_tick: 0,
                ..r.4
            },
        )
    }
}

/// Entering the playing screen. A round that is under way (coming back from
/// the pause screen) is kept as it is. Otherwise a fresh round of the current
/// level starts: the score goes to zero, the lives to the level's starting
/// lives, the rain timer is reset to the level's rain interval, the cooldown's
/// elapsed time is set to its duration, and the round is marked active. Returns
/// the number of fireflies to place when a fresh round started (the level's
/// firefly goal), in which case the caller clears the old round's entities and
/// spawns the new ones.
pub fn start_round_if_needed(
    session: &mut SessionActive,
    score: &mut Score,
    lives: &mut Lives,
    cooldown: &mut HitCooldown,
    rain_timer: &mut RainTimer,
    level: &CurrentLevel,
) -> (fireflies: Option<u32>)
    ensures
        old(session).0 ==> fireflies is None,
        !old(session).0 ==> fireflies == Some(rules_of(*level).firefly_goal),
        (final(session).0, final(score).0, final(lives).0, final(cooldown).0, final(rain_timer).0)
            == spec_start_round(
            (old(session).0, old(score).0, old(lives).0, old(cooldown).0, old(rain_timer).0),
            rules_of(*level),
        ),
        final(cooldown).0.duration == old(cooldown).0.duration,
        final(cooldown).0.repeating == old(cooldown).0.repeating,
        final(cooldown).0.finished == old(cooldown).0.finished,
        final(rain_timer).0.repeating == old(rain_timer).0.repeating,
        old(session).0 ==> {
            &&& final(session).0
            &&& *final(score) == *old(score)
            &&& *final(lives) == *old(lives)
            &&& *final(cooldown) == *old(cooldown)
            &&& *final(rain_timer) == *old(rain_timer)
        },
        !old(session).0 ==> {
            &&& final(session).0
            &&& final(score).0 == 0
            &&& final(lives).0 == rules_of(*level).starting_lives
            &&& final(cooldown).0.elapsed == old(cooldown).0.duration
            &&& final(rain_timer).0.duration == rules_of(*level).rain_interval_millis * 1_000_000
            &&& final(rain_timer).0.elapsed == 0
            &&& !final(rain_timer).0.finished
        },
{
    if session.0 {
        return None;
    }
    let rules = level.level_rules();
    score.0 = 0;
    lives.0 = rules.starting_lives;
    rain_timer.0.reset();
    rain_timer.0.set_duration(rules.rain_interval_millis * 1_000_000);
    let cooldown_duration = cooldown.0.duration();
    cooldown.0.set_elapsed(cooldown_duration);
    session.0 = true;
    Some(rules.firefly_goal)
}

/// Back to the menu: the round ends (the caller clears its entities).
pub fn leave_session(session: &mut SessionActive)
    ensures
        !final(session).0,
{
    session.0 = false;
}

/// Advances the hit cooldown by the frame's `delta` nanoseconds.
pub fn tick_hit_cooldown(cooldown: &mut HitCooldown, delta: u64)
    requires
        !old(cooldown).0.repeating,
    ensures
        final(cooldown).0 == spec_tick(old(cooldown).0, delta),
        !old(cooldown).0.finished ==> {
            let t = old(cooldown).0;
            let total = t.elapsed + delta;
            &&& final(cooldown).0.finished == (total >= t.duration)
            &&& final(cooldown).0.elapsed == (if total < t.duration { total as u64 } else { t.duration })
        },
{
    cooldown.0.tick_once(delta);
}

/// The best score that the saved file `contents` holds: its text without
/// surrounding whitespace read as a `u32`; 0 when there is no file or it holds
/// anything else.
pub open spec fn spec_load_high_score(contents: Option<Seq<char>>) -> u32 {
    match contents {
        Some(text) => match parse_u32(trim(text)) {
            Some(v) => v,
            None => 0,
        },
        None => 0,
    }
}

/// The best score read back from the high-score file's contents (`None` when
/// the file could not be read).
pub fn load_high_score(contents: Option<&str>) -> (score: u32)
    ensures
        score == spec_load_high_score(
            match contents {
                Some(t) => Some(t@),
                None => None,
            },
        ),
{
    match contents {
        Some(text) => match parse_trimmed_u32(text) {
            Some(v) => v,
            None => 0,
        },
        None => 0,
    }
}

/// What the high-score file holds for `score`: its decimal digits.
pub fn high_score_text(score: u32) -> (text: String)
    ensures
        text@ == decimal(score as nat),
{
    decimal_text(score)
}

} // verus!
