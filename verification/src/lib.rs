//! A functionally accurate recreation of the NTSC NES Tetris simulation
//! engine, with rendering and audio stripped away, verified with Verus.
//!
//! The crate models states between frames of the game. One `step(input)`
//! call advances a state by exactly one frame. [`state::State`] wraps the
//! two machines: [`menu_state::MenuState`] for the menu screens and
//! [`gameplay_state::GameplayState`] for play itself. Every step function
//! carries a contract equating the successor state with a mathematical
//! model of the frame logic, so replays are bit-reproducible by proof.

pub mod game_mode;
pub mod game_mode_state;
pub mod game_type;
pub mod gameplay_state;
pub mod input;
pub mod menu_mode;
pub mod menu_state;
pub mod meta_state;
pub mod modifier;
pub mod movie;
pub mod piece;
pub mod play_state;
pub mod playfield;
pub mod random;
pub mod state;
