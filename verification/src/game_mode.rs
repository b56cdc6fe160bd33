use vstd::prelude::*;

verus! {

/// A named screen of the game, menu screens and gameplay alike.
#[derive(Clone, Copy, Debug, PartialEq, Eq, Structural)]
pub enum GameMode {
    CopyrightScreen,
    TitleScreen,
    GameTypeSelect,
    LevelSelect,
    Gameplay,
}

} // verus!
