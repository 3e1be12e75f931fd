use salamander_rain::level::{CurrentLevel, Difficulty, LevelRules, LEVEL_COUNT};

#[test]
fn default_difficulty_is_normal() {
    assert_eq!(Difficulty::default(), Difficulty::Normal);
}

#[test]
fn labels_match_difficulties() {
    assert_eq!(Difficulty::Easy.label(), "EASY");
    assert_eq!(Difficulty::Normal.label(), "NORMAL");
    assert_eq!(Difficulty::Hard.label(), "HARD");
}

#[test]
fn next_cycles_through_all_difficulties() {
    assert_eq!(Difficulty::Easy.next(), Difficulty::Normal);
    assert_eq!(Difficulty::Normal.next(), Difficulty::Hard);
    assert_eq!(Difficulty::Hard.next(), Difficulty::Easy);
}

#[test]
fn three_steps_come_back_to_the_start() {
    for d in [Difficulty::Easy, Difficulty::Normal, Difficulty::Hard] {
        assert_eq!(d.next().next().next(), d);
        assert_ne!(d.next(), d);
    }
}

#[test]
fn definition_index_clamps_to_last_level() {
    assert_eq!(CurrentLevel(0).definition_index(), 0);
    assert_eq!(CurrentLevel(1).definition_index(), 1);
    assert_eq!(CurrentLevel(2).definition_index(), 2);
    assert_eq!(CurrentLevel(7).definition_index(), 2);
    assert_eq!(CurrentLevel(usize::MAX).definition_index(), LEVEL_COUNT - 1);
}

#[test]
fn final_level_is_last_definition() {
    for i in 0..6usize {
        let level = CurrentLevel(i);
        assert_eq!(level.is_final(), level.definition_index() == LEVEL_COUNT - 1);
    }
    assert!(!CurrentLevel(0).is_final());
    assert!(!CurrentLevel(1).is_final());
    assert!(CurrentLevel(2).is_final());
    assert!(CurrentLevel(7).is_final());
    assert!(CurrentLevel(usize::MAX).is_final());
}

#[test]
fn level_names_follow_the_table() {
    assert_eq!(CurrentLevel(0).level_name(), "Firefly Marsh");
    assert_eq!(CurrentLevel(1).level_name(), "Moonlit Fen");
    assert_eq!(CurrentLevel(2).level_name(), "Tempest Grove");
    assert_eq!(CurrentLevel(usize::MAX).level_name(), "Tempest Grove");
}

#[test]
fn winning_moves_to_the_next_level_and_wraps() {
    assert_eq!(CurrentLevel(0).after_win(), CurrentLevel(1));
    assert_eq!(CurrentLevel(1).after_win(), CurrentLevel(2));
    assert_eq!(CurrentLevel(2).after_win(), CurrentLevel(0));
    assert_eq!(CurrentLevel(9).after_win(), CurrentLevel(0));
    let mut level = CurrentLevel(1);
    for _ in 0..LEVEL_COUNT {
        level = level.after_win();
    }
    assert_eq!(level, CurrentLevel(1));
}

#[test]
fn level_rules_follow_the_table() {
    let marsh = LevelRules { firefly_goal: 12, starting_lives: 3, rain_interval_millis: 280, rain_speed: 330 };
    let fen = LevelRules { firefly_goal: 16, starting_lives: 3, rain_interval_millis: 210, rain_speed: 410 };
    let grove = LevelRules { firefly_goal: 20, starting_lives: 3, rain_interval_millis: 150, rain_speed: 500 };
    assert_eq!(CurrentLevel(0).level_rules(), marsh);
    assert_eq!(CurrentLevel(1).level_rules(), fen);
    assert_eq!(CurrentLevel(2).level_rules(), grove);
    assert_eq!(CurrentLevel(40).level_rules(), grove);
    assert_eq!(CurrentLevel(usize::MAX).after_win(), CurrentLevel(0));
}
