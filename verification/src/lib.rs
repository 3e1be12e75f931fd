//! Rules of Salamander Rain Dash: the round lifecycle, scoring, lives and the
//! hit cooldown, the screen-to-screen state machine, and the HUD texts.

pub mod timer;
pub mod game;
pub mod rain;
pub mod firefly;
pub mod level;
pub mod player;
pub mod ui;
pub mod text;
pub mod laws;
