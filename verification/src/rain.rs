use vstd::prelude::*;

use crate::game::{GameState, HitCooldown, Lives, SessionActive};
use crate::level::{rules_of, CurrentLevel};
use crate::timer::{spec_tick, GameTimer};

verus! {

/// The repeating timer that paces the raindrops.
#[derive(Clone, Copy, PartialEq, Eq, Structural, Debug)]
pub struct RainTimer(pub GameTimer);

/// Base falling speed of the rain, in pixels per second, before a drop's own
/// offset: the level's rain speed plus 18 for each firefly collected.
pub open spec fn spec_rain_base_speed(level: CurrentLevel, score: u32) -> int {
    rules_of(level).rain_speed + 18 * score
}

/// The rain falls faster the more fireflies were collected.
pub fn rain_base_speed(level: &CurrentLevel, score: u32) -> (speed: u64)
    ensures
        speed == spec_rain_base_speed(*level, score),
{
    let rules = level.level_rules();
    rules.rain_speed as u64 + 18 * (score as u64)
}

/// Advances the rain timer by the frame's `delta` nanoseconds; returns whether
/// a raindrop is due this frame (the timer finished during this tick).
pub fn tick_rain_timer(rain_timer: &mut RainTimer, delta: u64) -> (spawn: bool)
    requires
        old(rain_timer).0.repeating,
        old(rain_timer).0.can_tick(delta),
    ensures
        final(rain_timer).0 == spec_tick(old(rain_timer).0, delta),
        spawn == (final(rain_timer).0.times_finished_this_tick > 0),
{
    rain_timer.0.tick(delta);
    rain_timer.0.just_finished()
}

/// Whether rain can cost a life this frame: the cooldown is over and some
/// raindrop touches the salamander.
pub open spec fn rain_hits(cooldown: GameTimer, overlapping: Seq<bool>) -> bool {
    cooldown.finished && exists|i: int| 0 <= i < overlapping.len() && overlapping[i]
}

/// Lives after a hit: one fewer, never below zero.
pub open spec fn lives_after_hit(lives: u32) -> u32 {
    if lives == 0 {
        0
    } else {
        (lives - 1) as u32
    }
}

/// The cooldown after a hit: restarted.
pub open spec fn cooldown_after_hit(cooldown: GameTimer) -> GameTimer {
    GameTimer { elapsed: 0, finished: false, times_finished_this_tick: 0, ..cooldown }
}

/// What a frame's rain check decided.
pub struct RainCollision {
    /// The raindrop that hit the salamander (its position in the list that was
    /// checked); the caller removes it, flashes the salamander, puts it back at
    /// the centre and shakes the camera.
    pub hit: Option<usize>,
    /// The screen to go to, if the round was lost.
    pub next_state: Option<GameState>,
}

/// The position of the first `true` in `flags`, if any.
fn first_true(flags: &Vec<bool>) -> (r: Option<usize>)
    ensures
        r is None ==> forall|j: int| 0 <= j < flags@.len() ==> !flags@[j],
        r matches Some(k) ==> k < flags@.len() && flags@[k as int] && forall|j: int|
            0 <= j < k ==> !flags@[j],
{
    let mut i: usize = 0;
    while i < flags.len()
        invariant
            0 <= i <= flags@.len(),
            forall|j: int| 0 <= j < i ==> !flags@[j],
        decreases flags@.len() - i,
    {
        if flags[i] {
            return Some(i);
        }
        i = i + 1;
    }
    None
}

/// Rain against the salamander. `overlapping[i]` says whether raindrop `i`
/// touches it. While the cooldown runs nothing happens. Otherwise the first
/// touching raindrop costs one life (never below zero) and restarts the
/// cooldown; with no life left the round ends and the game goes to `Lost`.
pub fn check_rain_collision(
    lives: &mut Lives,
    cooldown: &mut HitCooldown,
    session: &mut SessionActive,
    overlapping: &Vec<bool>,
) -> (outcome: RainCollision)
    ensures
        !rain_hits(old(cooldown).0, overlapping@) ==> {
            &&& outcome.hit is None
            &&& outcome.next_state is None
            &&& *final(lives) == *old(lives)
            &&& final(cooldown).0 == old(cooldown).0
            &&& *final(session) == *old(session)
        },
        rain_hits(old(cooldown).0, overlapping@) ==> {
            &&& outcome.hit matches Some(k) && 0 <= k < overlapping@.len() && overlapping@[k as int]
                && forall|j: int| 0 <= j < k ==> !overlapping@[j]
            &&& final(lives).0 == lives_after_hit(old(lives).0)
            &&& final(cooldown).0 == cooldown_after_hit(old(cooldown).0)
            &&& final(lives).0 == 0 ==> !final(session).0 && outcome.next_state == Some(GameState::Lost)
            &&& final(lives).0 != 0 ==> *final(session) == *old(session) && outcome.next_state is None
        },
{
    if !cooldown.0.is_finished() {
        return RainCollision { hit: None, next_state: None };
    }
    match first_true(overlapping) {
        None => RainCollision { hit: None, next_state: None },
        Some(i) => {
            lives.0 = lives.0.saturating_sub(1);
            cooldown.0.reset();
            let mut next_state = None;
            if lives.0 == 0 {
                session.0 = false;
                next_state = Some(GameState::Lost);
            }
            RainCollision { hit: Some(i), next_state }
        },
    }
}

} // verus!
