use vstd::prelude::*;

verus! {

/// The menu screen a [`crate::menu_state::MenuState`] is currently on.
#[derive(Clone, Copy, Debug, PartialEq, Eq, Structural)]
pub enum MenuMode {
    CopyrightScreen,
    TitleScreen,
    GameTypeSelect,
    LevelSelect,
    InitializingGame,
}

} // verus!
