use salamander_rain::game::GameState;
use salamander_rain::level::CurrentLevel;
use salamander_rain::ui::{
    end_screen_input, menu_input, pause_input, playing_input, screen_input, KeyPresses,
};

fn keys() -> KeyPresses {
    KeyPresses::default()
}

#[test]
fn menu_starts_on_enter_or_space() {
    assert_eq!(menu_input(&KeyPresses { enter: true, ..keys() }), Some(GameState::Playing));
    assert_eq!(menu_input(&KeyPresses { space: true, ..keys() }), Some(GameState::Playing));
    assert_eq!(menu_input(&KeyPresses { p: true, m: true, r: true, ..keys() }), None);
    assert_eq!(menu_input(&keys()), None);
}

#[test]
fn playing_pauses_on_p_or_escape() {
    assert_eq!(playing_input(&KeyPresses { p: true, ..keys() }), Some(GameState::Paused));
    assert_eq!(playing_input(&KeyPresses { escape: true, ..keys() }), Some(GameState::Paused));
    assert_eq!(playing_input(&KeyPresses { m: true, enter: true, ..keys() }), None);
}

#[test]
fn pause_resumes_before_menu() {
    assert_eq!(pause_input(&KeyPresses { p: true, m: true, ..keys() }), Some(GameState::Playing));
    assert_eq!(pause_input(&KeyPresses { escape: true, ..keys() }), Some(GameState::Playing));
    assert_eq!(pause_input(&KeyPresses { m: true, ..keys() }), Some(GameState::Menu));
    assert_eq!(pause_input(&KeyPresses { enter: true, ..keys() }), None);
}

#[test]
fn end_screens_replay_or_go_to_menu() {
    assert_eq!(end_screen_input(&KeyPresses { enter: true, ..keys() }), Some(GameState::Playing));
    assert_eq!(end_screen_input(&KeyPresses { r: true, m: true, ..keys() }), Some(GameState::Playing));
    assert_eq!(end_screen_input(&KeyPresses { m: true, ..keys() }), Some(GameState::Menu));
    assert_eq!(end_screen_input(&KeyPresses { space: true, ..keys() }), None);
}

#[test]
fn screen_input_dispatches_on_the_current_screen() {
    let mut level = CurrentLevel(1);
    let p = KeyPresses { p: true, ..keys() };
    assert_eq!(screen_input(GameState::Playing, &mut level, &p), Some(GameState::Paused));
    assert_eq!(screen_input(GameState::Paused, &mut level, &p), Some(GameState::Playing));
    assert_eq!(screen_input(GameState::Menu, &mut level, &p), None);
    assert_eq!(screen_input(GameState::Won, &mut level, &p), None);
    assert_eq!(level, CurrentLevel(1));
    let r = KeyPresses { r: true, ..keys() };
    assert_eq!(screen_input(GameState::Lost, &mut level, &r), Some(GameState::Playing));
    assert_eq!(level, CurrentLevel(1));
    assert_eq!(screen_input(GameState::Menu, &mut level, &r), None);
    assert_eq!(screen_input(GameState::Won, &mut level, &r), Some(GameState::Playing));
    assert_eq!(level, CurrentLevel(2));
    assert_eq!(GameState::default(), GameState::Menu);
}

#[test]
fn replaying_after_a_win_moves_on_and_wraps() {
    let mut level = CurrentLevel(2);
    let enter = KeyPresses { enter: true, ..keys() };
    assert_eq!(screen_input(GameState::Won, &mut level, &enter), Some(GameState::Playing));
    assert_eq!(level, CurrentLevel(0));
    let m = KeyPresses { m: true, ..keys() };
    assert_eq!(screen_input(GameState::Won, &mut level, &m), Some(GameState::Menu));
    assert_eq!(level, CurrentLevel(0));
    assert_eq!(screen_input(GameState::Won, &mut level, &keys()), None);
    assert_eq!(level, CurrentLevel(0));
}
