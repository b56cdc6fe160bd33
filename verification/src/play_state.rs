use vstd::prelude::*;

verus! {

/// The phase of the per-frame gameplay sequencer: a strict forward cycle
/// with no backward transitions except the terminal dead exit from
/// `LockTetrimino`.
#[derive(Clone, Copy, Debug, PartialEq, Eq, Structural)]
pub enum PlayState {
    MoveTetrimino,
    LockTetrimino,
    CheckForCompletedRows,
    DoNothing,
    UpdateLinesAndStatistics,
    SpawnNextTetrimino,
}

} // verus!
