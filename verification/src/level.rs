use vstd::prelude::*;

verus! {

/// Number of levels in the level table.
pub const LEVEL_COUNT: usize = 3;

/// How hard the storm is.
#[derive(Clone, Copy, PartialEq, Eq, Structural, Debug, Hash, Default)]
pub enum Difficulty {
    Easy,
    #[default]
    Normal,
    Hard,
}

/// The difficulty after `d` in the cycle Easy -> Normal -> Hard -> Easy.
pub open spec fn spec_next(d: Difficulty) -> Difficulty {
    match d {
        Difficulty::Easy => Difficulty::Normal,
        Difficulty::Normal => Difficulty::Hard,
        Difficulty::Hard => Difficulty::Easy,
    }
}

impl Difficulty {
    /// The name shown for the difficulty.
    pub fn label(&self) -> (s: &'static str)
        ensures
            s@ == (match *self {
                Difficulty::Easy => "EASY"@,
                Difficulty::Normal => "NORMAL"@,
                Difficulty::Hard => "HARD"@,
            }),
    {
        match self {
            Difficulty::Easy => "EASY",
            Difficulty::Normal => "NORMAL",
            Difficulty::Hard => "HARD",
        }
    }

    /// Cycles Easy -> Normal -> Hard -> Easy.
    pub fn next(&self) -> (d: Difficulty)
        ensures
            d == spec_next(*self),
    {
        match self {
            Difficulty::Easy => Difficulty::Normal,
            Difficulty::Normal => Difficulty::Hard,
            Difficulty::Hard => Difficulty::Easy,
        }
    }
}

/// The level being played, as an index into the level table.
#[derive(Clone, Copy, PartialEq, Eq, Structural, Debug, Default)]
pub struct CurrentLevel(pub usize);

/// The entry of the level table used for level `i`: `i`, clamped to the last level.
pub open spec fn spec_definition_index(i: usize) -> usize {
    if i < LEVEL_COUNT - 1 {
        i
    } else {
        (LEVEL_COUNT - 1) as usize
    }
}

/// The integer part of a level's definition: how many fireflies it holds and
/// must be collected to win it, the lives a round starts with, how often a
/// raindrop falls (milliseconds between drops) and the rain's base falling
/// speed (pixels per second).
#[derive(Clone, Copy, PartialEq, Eq, Structural, Debug)]
pub struct LevelRules {
    pub firefly_goal: u32,
    pub starting_lives: u32,
    pub rain_interval_millis: u64,
    pub rain_speed: u32,
}

/// The level table: Firefly Marsh, Moonlit Fen, Tempest Grove. Entries past
/// the last are the last.
pub open spec fn spec_level_rules(i: usize) -> LevelRules {
    if i == 0 {
        LevelRules { firefly_goal: 12, starting_lives: 3, rain_interval_millis: 280, rain_speed: 330 }
    } else if i == 1 {
        LevelRules { firefly_goal: 16, starting_lives: 3, rain_interval_millis: 210, rain_speed: 410 }
    } else {
        LevelRules { firefly_goal: 20, starting_lives: 3, rain_interval_millis: 150, rain_speed: 500 }
    }
}

/// The names of the levels of the table.
pub open spec fn spec_level_name(i: usize) -> Seq<char> {
    if i == 0 {
        "Firefly Marsh"@
    } else if i == 1 {
        "Moonlit Fen"@
    } else {
        "Tempest Grove"@
    }
}

/// The rules of the level being played.
pub open spec fn rules_of(level: CurrentLevel) -> LevelRules {
    spec_level_rules(spec_definition_index(level.0))
}

/// The level after winning level `i`: the next one, or the first after the final level.
pub open spec fn spec_after_win(i: usize) -> usize {
    if i + 1 >= LEVEL_COUNT {
        0
    } else {
        (i + 1) as usize
    }
}

impl CurrentLevel {
    /// The entry of the level table that describes this level: the index,
    /// clamped to the last level.
    pub fn definition_index(&self) -> (i: usize)
        ensures
            i == spec_definition_index(self.0),
    {
        if self.0 < LEVEL_COUNT - 1 {
            self.0
        } else {
            LEVEL_COUNT - 1
        }
    }

    /// The rules of this level: its entry of the level table.
    pub fn level_rules(&self) -> (r: LevelRules)
        ensures
            r == rules_of(*self),
    {
        let i = self.definition_index();
        if i == 0 {
            LevelRules { firefly_goal: 12, starting_lives: 3, rain_interval_millis: 280, rain_speed: 330 }
        } else if i == 1 {
            LevelRules { firefly_goal: 16, starting_lives: 3, rain_interval_millis: 210, rain_speed: 410 }
        } else {
            LevelRules { firefly_goal: 20, starting_lives: 3, rain_interval_millis: 150, rain_speed: 500 }
        }
    }

    /// The level played after this one is won: the next one, or the first
    /// again after the final level.
    pub fn after_win(&self) -> (next: CurrentLevel)
        ensures
            next.0 == spec_after_win(self.0),
    {
        if self.0 >= LEVEL_COUNT - 1 {
            CurrentLevel(0)
        } else {
            CurrentLevel(self.0 + 1)
        }
    }

    /// Whether this is the last level of the table (or past it).
    pub fn is_final(&self) -> (b: bool)
        ensures
            b == (self.0 + 1 >= LEVEL_COUNT),
            b == (spec_definition_index(self.0) == LEVEL_COUNT - 1),
    {
        self.0 >= LEVEL_COUNT - 1
    }

    /// The name of this level.
    pub fn level_name(&self) -> (name: &'static str)
        ensures
            name@ == spec_level_name(spec_definition_index(self.0)),
    {
        let i = self.definition_index();
        if i == 0 {
            "Firefly Marsh"
        } else if i == 1 {
            "Moonlit Fen"
        } else {
            "Tempest Grove"
        }
    }
}

} // verus!
