use vstd::prelude::*;

verus! {

/// Which half of the per-frame gameplay sequencer runs next.
#[derive(Clone, Copy, Debug, PartialEq, Eq, Structural)]
pub enum GameModeState {
    HandleGameplay,
    HandleStartButton,
    Unpause,
}

} // verus!
