use salamander_rain::player::{tick_hit_flash, HitFlash};
use salamander_rain::firefly::collect_firefly;
use salamander_rain::game::{
    leave_session, start_round_if_needed, tick_hit_cooldown, GameState, HighScore, HitCooldown,
    Lives, Score, SessionActive,
};
use salamander_rain::level::CurrentLevel;
use salamander_rain::rain::{check_rain_collision, rain_base_speed, tick_rain_timer, RainTimer};
use salamander_rain::timer::GameTimer;

const SECOND: u64 = 1_000_000_000;
const STARTING_LIVES: u32 = 3;
const LEVEL_ONE: CurrentLevel = CurrentLevel(0);

fn rain_timer() -> RainTimer {
    RainTimer(GameTimer::new(220_000_000, true))
}

#[test]
fn fresh_round_resets_score_lives_and_timers() {
    let mut session = SessionActive(false);
    let mut score = Score(7);
    let mut lives = Lives(1);
    let mut cooldown = HitCooldown(GameTimer::new(SECOND, false));
    let mut rain = rain_timer();
    rain.0.set_elapsed(100);
    assert_eq!(
        start_round_if_needed(&mut session, &mut score, &mut lives, &mut cooldown, &mut rain, &CurrentLevel(1)),
        Some(16)
    );
    assert!(session.0);
    assert_eq!(rain.0.duration, 210_000_000);
    assert_eq!(score, Score(0));
    assert_eq!(lives, Lives(STARTING_LIVES));
    assert_eq!(cooldown.0.elapsed, SECOND);
    assert!(!cooldown.0.finished);
    assert_eq!(rain.0.elapsed, 0);
}

#[test]
fn resuming_from_pause_keeps_the_round() {
    let mut session = SessionActive(true);
    let mut score = Score(5);
    let mut lives = Lives(2);
    let mut cooldown = HitCooldown::new(SECOND);
    let mut rain = rain_timer();
    rain.0.set_elapsed(100);
    assert_eq!(
        start_round_if_needed(&mut session, &mut score, &mut lives, &mut cooldown, &mut rain, &LEVEL_ONE),
        None
    );
    assert_eq!(rain.0.duration, 220_000_000);
    assert_eq!(score, Score(5));
    assert_eq!(lives, Lives(2));
    assert_eq!(rain.0.elapsed, 100);
    leave_session(&mut session);
    assert!(!session.0);
    assert_eq!(
        start_round_if_needed(&mut session, &mut score, &mut lives, &mut cooldown, &mut rain, &CurrentLevel(5)),
        Some(20)
    );
    assert_eq!(score, Score(0));
    assert_eq!(lives, Lives(3));
    assert_eq!(rain.0.duration, 150_000_000);
}

#[test]
fn cooldown_is_armed_only_after_the_first_tick() {
    let mut cooldown = HitCooldown::new(SECOND);
    assert!(!cooldown.0.is_finished());
    tick_hit_cooldown(&mut cooldown, 16_000_000);
    assert!(cooldown.0.is_finished());
    assert_eq!(cooldown.0.elapsed, SECOND);
}

#[test]
fn rain_costs_one_life_then_cooldown_protects() {
    let mut lives = Lives(3);
    let mut cooldown = HitCooldown::new(SECOND);
    let mut session = SessionActive(true);
    tick_hit_cooldown(&mut cooldown, 1);
    let touching = vec![false, true, true];
    let hit = check_rain_collision(&mut lives, &mut cooldown, &mut session, &touching);
    assert_eq!(hit.hit, Some(1));
    assert_eq!(hit.next_state, None);
    assert_eq!(lives, Lives(2));
    assert!(!cooldown.0.is_finished());
    assert_eq!(cooldown.0.elapsed, 0);

    let again = check_rain_collision(&mut lives, &mut cooldown, &mut session, &touching);
    assert_eq!(again.hit, None);
    assert_eq!(lives, Lives(2));

    tick_hit_cooldown(&mut cooldown, SECOND / 2);
    assert!(!cooldown.0.is_finished());
    assert_eq!(cooldown.0.elapsed, SECOND / 2);
    assert_eq!(check_rain_collision(&mut lives, &mut cooldown, &mut session, &touching).hit, None);
    tick_hit_cooldown(&mut cooldown, SECOND / 2);
    assert!(cooldown.0.is_finished());
    assert_eq!(check_rain_collision(&mut lives, &mut cooldown, &mut session, &touching).hit, Some(1));
    assert_eq!(lives, Lives(1));
}

#[test]
fn third_hit_loses_the_round() {
    let mut lives = Lives(STARTING_LIVES);
    let mut cooldown = HitCooldown::new(SECOND);
    let mut session = SessionActive(true);
    let touching = vec![true];
    for expected in [2u32, 1, 0] {
        tick_hit_cooldown(&mut cooldown, SECOND);
        let outcome = check_rain_collision(&mut lives, &mut cooldown, &mut session, &touching);
        assert_eq!(outcome.hit, Some(0));
        assert_eq!(lives, Lives(expected));
        if expected == 0 {
            assert_eq!(outcome.next_state, Some(GameState::Lost));
            assert!(!session.0);
        } else {
            assert_eq!(outcome.next_state, None);
            assert!(session.0);
        }
    }
    tick_hit_cooldown(&mut cooldown, SECOND);
    let outcome = check_rain_collision(&mut lives, &mut cooldown, &mut session, &touching);
    assert_eq!(lives, Lives(0));
    assert_eq!(outcome.next_state, Some(GameState::Lost));
}

#[test]
fn no_overlap_no_hit() {
    let mut lives = Lives(3);
    let mut cooldown = HitCooldown::new(SECOND);
    let mut session = SessionActive(true);
    tick_hit_cooldown(&mut cooldown, 5);
    let outcome = check_rain_collision(&mut lives, &mut cooldown, &mut session, &vec![false, false]);
    assert_eq!(outcome.hit, None);
    assert_eq!(lives, Lives(3));
    assert!(cooldown.0.is_finished());
    let outcome = check_rain_collision(&mut lives, &mut cooldown, &mut session, &vec![]);
    assert_eq!(outcome.hit, None);
}

#[test]
fn collecting_fireflies_scores_and_saves_best() {
    let mut score = Score(2);
    let mut high = HighScore(3);
    let mut session = SessionActive(true);
    let outcome = collect_firefly(&mut score, &mut high, &mut session, &vec![true, false, true, true], &LEVEL_ONE);
    assert_eq!(outcome.collected, vec![0, 2, 3]);
    assert_eq!(score, Score(5));
    assert_eq!(high, HighScore(5));
    assert_eq!(outcome.saved, vec![4, 5]);
    assert_eq!(outcome.next_state, None);
    assert!(session.0);
}

#[test]
fn collecting_below_best_saves_nothing() {
    let mut score = Score(0);
    let mut high = HighScore(9);
    let mut session = SessionActive(true);
    let outcome = collect_firefly(&mut score, &mut high, &mut session, &vec![false, true], &LEVEL_ONE);
    assert_eq!(outcome.collected, vec![1]);
    assert_eq!(score, Score(1));
    assert_eq!(high, HighScore(9));
    assert!(outcome.saved.is_empty());
    let outcome = collect_firefly(&mut score, &mut high, &mut session, &vec![false, false], &LEVEL_ONE);
    assert!(outcome.collected.is_empty());
    assert_eq!(score, Score(1));
}

#[test]
fn last_firefly_wins_the_round() {
    let mut score = Score(11);
    let mut high = HighScore(0);
    let mut session = SessionActive(true);
    let outcome = collect_firefly(&mut score, &mut high, &mut session, &vec![true], &LEVEL_ONE);
    assert_eq!(score, Score(12));
    assert_eq!(outcome.next_state, Some(GameState::Won));
    assert!(!session.0);
    assert_eq!(high, HighScore(12));
    assert_eq!(outcome.saved, vec![12]);
}

#[test]
fn rain_speeds_up_with_score() {
    assert_eq!(rain_base_speed(&CurrentLevel(0), 0), 330);
    assert_eq!(rain_base_speed(&CurrentLevel(0), 1), 348);
    assert_eq!(rain_base_speed(&CurrentLevel(0), 12), 546);
    assert_eq!(rain_base_speed(&CurrentLevel(1), 0), 410);
    assert_eq!(rain_base_speed(&CurrentLevel(2), 10), 680);
    assert_eq!(rain_base_speed(&CurrentLevel(9), 0), 500);
    assert_eq!(rain_base_speed(&CurrentLevel(2), u32::MAX), 500 + 18 * u32::MAX as u64);
}

#[test]
fn rain_timer_spawns_when_it_wraps() {
    let mut rain = rain_timer();
    assert!(!tick_rain_timer(&mut rain, 200_000_000));
    assert_eq!(rain.0.elapsed, 200_000_000);
    assert!(tick_rain_timer(&mut rain, 30_000_000));
    assert_eq!(rain.0.elapsed, 10_000_000);
    assert_eq!(rain.0.times_finished_this_tick, 1);
    assert!(tick_rain_timer(&mut rain, 450_000_000));
    assert_eq!(rain.0.times_finished_this_tick, 2);
    assert_eq!(rain.0.elapsed, 20_000_000);
    assert!(!tick_rain_timer(&mut rain, 0));
}

#[test]
fn collecting_every_firefly_over_frames_wins() {
    let mut score = Score(0);
    let mut high = HighScore(0);
    let mut session = SessionActive(true);
    let mut won = false;
    for frame in [vec![true, true, false], vec![false; 4], vec![true; 5], vec![true; 5]] {
        let outcome = collect_firefly(&mut score, &mut high, &mut session, &frame, &CurrentLevel(0));
        if outcome.next_state == Some(GameState::Won) {
            won = true;
        }
    }
    assert_eq!(score, Score(12));
    assert!(won);
    assert!(!session.0);
}

#[test]
fn hit_flash_ends_after_its_duration() {
    let mut flash = HitFlash::new(SECOND);
    assert!(!tick_hit_flash(&mut flash, SECOND / 4));
    assert_eq!(flash.timer.elapsed, SECOND / 4);
    assert!(!tick_hit_flash(&mut flash, SECOND / 2));
    assert!(tick_hit_flash(&mut flash, SECOND / 2));
    assert_eq!(flash.timer.elapsed, SECOND);
    assert!(tick_hit_flash(&mut flash, 1));
}

#[test]
fn cooldown_takes_any_frame_time() {
    let mut lives = Lives(3);
    let mut cooldown = HitCooldown::new(salamander_rain::game::HIT_COOLDOWN_NANOS);
    let mut session = SessionActive(true);
    tick_hit_cooldown(&mut cooldown, 1);
    check_rain_collision(&mut lives, &mut cooldown, &mut session, &vec![true]);
    assert!(!cooldown.0.is_finished());
    tick_hit_cooldown(&mut cooldown, u64::MAX);
    assert!(cooldown.0.is_finished());
    assert_eq!(cooldown.0.elapsed, SECOND);
    tick_hit_cooldown(&mut cooldown, u64::MAX);
    assert_eq!(cooldown.0.elapsed, SECOND);
    let mut flash = HitFlash::new(SECOND);
    assert!(tick_hit_flash(&mut flash, u64::MAX));
    assert_eq!(flash.timer.elapsed, SECOND);
}
