use vstd::prelude::*;

verus! {

/// Number of rounds played.
#[derive(Clone, Copy, Debug)]
pub struct GameCount(pub u32);

/// How hard the game is set.
#[derive(Clone, Copy, Debug, PartialEq, Eq, Structural)]
pub enum GameDifficulty {
    Normal,
    /// Patterns are recognised from here on.
    Expert,
    /// Ad-lib notes can be captured as well.
    Master,
}

impl GameDifficulty {
    /// Whether patterns are recognised at this difficulty: at every one
    /// above `Normal`.
    pub open spec fn recognises_patterns(self) -> bool {
        self != GameDifficulty::Normal
    }

    /// What a difficulty is called.
    pub open spec fn name_of(self) -> Seq<char> {
        match self {
            GameDifficulty::Normal => "Normal"@,
            GameDifficulty::Expert => "Expert"@,
            GameDifficulty::Master => "Master"@,
        }
    }

    pub fn name(&self) -> (r: &'static str)
        ensures
            r@ == self.name_of(),
    {
        match self {
            GameDifficulty::Normal => "Normal",
            GameDifficulty::Expert => "Expert",
            GameDifficulty::Master => "Master",
        }
    }

    pub fn patterns_enabled(&self) -> (r: bool)
        ensures
            r == self.recognises_patterns(),
    {
        match self {
            GameDifficulty::Normal => false,
            GameDifficulty::Expert => true,
            GameDifficulty::Master => true,
        }
    }
}

} // verus!
