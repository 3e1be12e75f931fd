use vstd::prelude::*;

use crate::game::GameState;
use crate::level::{spec_after_win, CurrentLevel};
use crate::text::{decimal, push_decimal};
use vstd::string::*;

verus! {

/// The keys that went down this frame, among those the screens react to.
#[derive(Clone, Copy, PartialEq, Eq, Structural, Debug, Default)]
pub struct KeyPresses {
    pub enter: bool,
    pub space: bool,
    pub r: bool,
    pub p: bool,
    pub escape: bool,
    pub m: bool,
}

/// Title screen: Enter or Space starts playing.
pub fn menu_input(keys: &KeyPresses) -> (next: Option<GameState>)
    ensures
        next == (if keys.enter || keys.space { Some(GameState::Playing) } else { None }),
{
    if keys.enter || keys.space {
        Some(GameState::Playing)
    } else {
        None
    }
}

/// While playing: P or Escape pauses.
pub fn playing_input(keys: &KeyPresses) -> (next: Option<GameState>)
    ensures
        next == (if keys.p || keys.escape { Some(GameState::Paused) } else { None }),
{
    if keys.p || keys.escape {
        Some(GameState::Paused)
    } else {
        None
    }
}

/// Pause screen: P or Escape resumes; otherwise M goes back to the menu.
pub fn pause_input(keys: &KeyPresses) -> (next: Option<GameState>)
    ensures
        next == (if keys.p || keys.escape {
            Some(GameState::Playing)
        } else if keys.m {
            Some(GameState::Menu)
        } else {
            None
        }),
{
    if keys.p || keys.escape {
        Some(GameState::Playing)
    } else if keys.m {
        Some(GameState::Menu)
    } else {
        None
    }
}

/// Win and loss screens: Enter or R plays again; otherwise M goes back to the menu.
pub fn end_screen_input(keys: &KeyPresses) -> (next: Option<GameState>)
    ensures
        next == (if keys.enter || keys.r {
            Some(GameState::Playing)
        } else if keys.m {
            Some(GameState::Menu)
        } else {
            None
        }),
{
    if keys.enter || keys.r {
        Some(GameState::Playing)
    } else if keys.m {
        Some(GameState::Menu)
    } else {
        None
    }
}

/// The screen the keys of this frame lead to from `state`.
pub open spec fn spec_screen_input(state: GameState, keys: KeyPresses) -> Option<GameState> {
    match state {
        GameState::Menu => if keys.enter || keys.space { Some(GameState::Playing) } else { None },
        GameState::Playing => if keys.p || keys.escape { Some(GameState::Paused) } else { None },
        GameState::Paused => if keys.p || keys.escape {
            Some(GameState::Playing)
        } else if keys.m {
            Some(GameState::Menu)
        } else {
            None
        },
        GameState::Won | GameState::Lost => if keys.enter || keys.r {
            Some(GameState::Playing)
        } else if keys.m {
            Some(GameState::Menu)
        } else {
            None
        },
    }
}

/// The level played after leaving `state` for `next`: replaying from the win
/// screen moves on to the next level (the first after the last); anything
/// else keeps the level.
pub open spec fn spec_level_after_input(
    state: GameState,
    next: Option<GameState>,
    level: CurrentLevel,
) -> CurrentLevel {
    if state == GameState::Won && next == Some(GameState::Playing) {
        CurrentLevel(spec_after_win(level.0))
    } else {
        level
    }
}

/// Runs the input handler of the current screen. Playing again from the win
/// screen moves on to the next level; playing again after a loss retries the
/// same level, and going back to the menu keeps it.
pub fn screen_input(state: GameState, level: &mut CurrentLevel, keys: &KeyPresses) -> (next: Option<
    GameState,
>)
    ensures
        next == spec_screen_input(state, *keys),
        *final(level) == spec_level_after_input(state, next, *old(level)),
        state == GameState::Menu ==> next == (if keys.enter || keys.space {
            Some(GameState::Playing)
        } else {
            None
        }),
        state == GameState::Playing ==> next == (if keys.p || keys.escape {
            Some(GameState::Paused)
        } else {
            None
        }),
        state == GameState::Paused ==> next == (if keys.p || keys.escape {
            Some(GameState::Playing)
        } else if keys.m {
            Some(GameState::Menu)
        } else {
            None
        }),
        state == GameState::Won || state == GameState::Lost ==> next == (if keys.enter || keys.r {
            Some(GameState::Playing)
        } else if keys.m {
            Some(GameState::Menu)
        } else {
            None
        }),
        state != GameState::Won ==> *final(level) == *old(level),
        state == GameState::Won && !(keys.enter || keys.r) ==> *final(level) == *old(level),
        state == GameState::Won && (keys.enter || keys.r) ==> final(level).0 == (if old(level).0 + 1
            >= 3 {
            0
        } else {
            old(level).0 + 1
        }),
{
    let next = match state {
        GameState::Menu => menu_input(keys),
        GameState::Playing => playing_input(keys),
        GameState::Paused => pause_input(keys),
        GameState::Won | GameState::Lost => end_screen_input(keys),
    };
    if state == GameState::Won && next == Some(GameState::Playing) {
        *level = level.after_win();
    }
    next
}

/// How strong the storm looks for a score: 0 (calm) to 3 (fierce).
pub open spec fn storm_level(score: u32) -> int {
    if score <= 4 {
        0
    } else if score <= 9 {
        1
    } else if score <= 14 {
        2
    } else {
        3
    }
}

/// The HUD's name for the storm at a score.
pub open spec fn spec_storm_label(score: u32) -> Seq<char> {
    let level = storm_level(score);
    if level == 0 {
        "CALM"@
    } else if level == 1 {
        "RISING"@
    } else if level == 2 {
        "HEAVY"@
    } else {
        "FIERCE"@
    }
}

/// Hearts for `n` lives, separated by single spaces.
pub open spec fn hearts(n: nat) -> Seq<char>
    decreases n,
{
    if n == 0 {
        Seq::empty()
    } else if n == 1 {
        seq!['\u{2665}']
    } else {
        hearts((n - 1) as nat) + seq![' ', '\u{2665}']
    }
}

/// The storm's name for the HUD: CALM up to 4 fireflies, RISING up to 9,
/// HEAVY up to 14, FIERCE beyond.
pub fn storm_label(score: u32) -> (label: &'static str)
    ensures
        label@ == spec_storm_label(score),
        score <= 4 ==> label@ == "CALM"@,
        5 <= score <= 9 ==> label@ == "RISING"@,
        10 <= score <= 14 ==> label@ == "HEAVY"@,
        15 <= score ==> label@ == "FIERCE"@,
{
    if score <= 4 {
        "CALM"
    } else if score <= 9 {
        "RISING"
    } else if score <= 14 {
        "HEAVY"
    } else {
        "FIERCE"
    }
}

/// The HUD's firefly counter: the score out of the level's firefly goal.
pub fn score_text(score: u32, goal: u32) -> (text: String)
    ensures
        text@ == "FIREFLIES  "@ + decimal(score as nat) + " / "@ + decimal(goal as nat),
{
    let mut text = String::from_str("FIREFLIES  ");
    push_decimal(&mut text, score);
    text.append(" / ");
    push_decimal(&mut text, goal);
    text
}

/// The HUD's storm indicator.
pub fn storm_text(score: u32) -> (text: String)
    ensures
        text@ == "STORM  "@ + spec_storm_label(score),
{
    let mut text = String::from_str("STORM  ");
    text.append(storm_label(score));
    text
}

/// The HUD's best score.
pub fn best_text(high_score: u32) -> (text: String)
    ensures
        text@ == "BEST  "@ + decimal(high_score as nat),
{
    let mut text = String::from_str("BEST  ");
    push_decimal(&mut text, high_score);
    text
}

/// The HUD's lives: one heart per life.
pub fn lives_text(lives: u32) -> (text: String)
    ensures
        text@ == "LIVES  "@ + hearts(lives as nat),
{
    let mut text = String::from_str("LIVES  ");
    let ghost prefix = text@;
    let mut i: u32 = 0;
    while i < lives
        invariant
            i <= lives,
            text@ == prefix + hearts(i as nat),
        decreases lives - i,
    {
        proof {
            reveal_strlit(" ");
            reveal_strlit("\u{2665}");
        }
        if i > 0 {
            text.append(" ");
        }
        text.append("\u{2665}");
        proof {
            if i > 0 {
                assert(prefix + hearts((i + 1) as nat) =~= prefix + hearts(i as nat) + seq![' '] + seq!['\u{2665}']);
            } else {
                assert(prefix + hearts((i + 1) as nat) =~= prefix + hearts(i as nat) + seq!['\u{2665}']);
            }
        }
        i = i + 1;
    }
    text
}

/// The pause screen's text.
pub fn pause_text() -> (text: &'static str)
    ensures
        text@ == "PAUSED\n\nP / ESC  -  RESUME\nM  -  MAIN MENU"@,
{
    "PAUSED\n\nP / ESC  -  RESUME\nM  -  MAIN MENU"
}

/// The win screen's text.
pub fn win_text() -> (text: &'static str)
    ensures
        text@ == "The fireflies are safe! Press Enter or R to play again.\n\nM  -  MAIN MENU"@,
{
    "The fireflies are safe! Press Enter or R to play again.\n\nM  -  MAIN MENU"
}

/// The loss screen's text.
pub fn loss_text() -> (text: &'static str)
    ensures
        text@ == "The storm won. Press Enter or R to try again.\n\nM  -  MAIN MENU"@,
{
    "The storm won. Press Enter or R to try again.\n\nM  -  MAIN MENU"
}

/// The title screen's instructions, with the level's firefly goal and the best score.
pub fn menu_text(goal: u32, high_score: u32) -> (text: String)
    ensures
        text@ == "Collect all "@ + decimal(goal as nat)
            + " fireflies before the storm takes your lives.\n\nWASD or Arrow Keys  -  Move\nP or Escape  -  Pause\n\nBEST SCORE: "@
            + decimal(high_score as nat) + "\n\nPRESS ENTER TO START"@,
{
    let mut text = String::from_str("Collect all ");
    push_decimal(&mut text, goal);
    text.append(
        " fireflies before the storm takes your lives.\n\nWASD or Arrow Keys  -  Move\nP or Escape  -  Pause\n\nBEST SCORE: ",
    );
    push_decimal(&mut text, high_score);
    text.append("\n\nPRESS ENTER TO START");
    text
}

} // verus!
