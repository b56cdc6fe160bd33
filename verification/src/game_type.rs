use vstd::prelude::*;

verus! {

/// The two scoring/goal modes: A counts lines upward with level
/// progression; B counts a fixed goal downward to zero.
#[derive(Clone, Copy, Debug, PartialEq, Eq, Structural)]
pub enum GameType {
    A,
    B,
}

} // verus!
