use bevy::time::{Timer, TimerMode};
use salamander_rain::timer::GameTimer;
use std::time::Duration;

fn agrees(game: &GameTimer, bevy: &Timer) {
    assert_eq!(game.elapsed as u128, bevy.elapsed().as_nanos());
    assert_eq!(game.duration as u128, bevy.duration().as_nanos());
    assert_eq!(game.is_finished(), bevy.is_finished());
    assert_eq!(game.just_finished(), bevy.just_finished());
    assert_eq!(game.times_finished_this_tick, bevy.times_finished_this_tick());
}

#[test]
fn once_timer_tracks_bevy() {
    let mut game = GameTimer::new(1_000, false);
    let mut bevy = Timer::new(Duration::from_nanos(1_000), TimerMode::Once);
    for delta in [0u64, 300, 600, 50, 200, 0, 999, 1] {
        game.tick(delta);
        bevy.tick(Duration::from_nanos(delta));
        agrees(&game, &bevy);
    }
    game.reset();
    bevy.reset();
    agrees(&game, &bevy);
    game.set_elapsed(1_000);
    bevy.set_elapsed(Duration::from_nanos(1_000));
    agrees(&game, &bevy);
    game.tick(0);
    bevy.tick(Duration::ZERO);
    agrees(&game, &bevy);
}

#[test]
fn repeating_timer_tracks_bevy() {
    let mut game = GameTimer::new(220, true);
    let mut bevy = Timer::new(Duration::from_nanos(220), TimerMode::Repeating);
    for delta in [100u64, 100, 100, 0, 660, 1000, 19, 1, 0] {
        game.tick(delta);
        bevy.tick(Duration::from_nanos(delta));
        agrees(&game, &bevy);
    }
}

#[test]
fn zero_duration_timers_track_bevy() {
    for repeating in [false, true] {
        let mode = if repeating { TimerMode::Repeating } else { TimerMode::Once };
        let mut game = GameTimer::new(0, repeating);
        let mut bevy = Timer::new(Duration::ZERO, mode);
        for delta in [0u64, 5, 0] {
            game.tick(delta);
            bevy.tick(Duration::from_nanos(delta));
            agrees(&game, &bevy);
        }
    }
}
