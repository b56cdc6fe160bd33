use crate::game_mode_state::GameModeState;
use crate::game_type::GameType;
use crate::gameplay_state::{GameView, GameplayState};
use crate::input::Input;
use crate::modifier::Modifier;
use crate::piece::Piece;
use crate::play_state::PlayState;
use crate::playfield::Playfield;
use crate::random::{Random, RandomView};
use vstd::prelude::*;

verus! {

/// The mathematical state of a meta state.
pub ghost struct MetaView {
    pub frame: u32,
    pub dead: bool,
    pub random: RandomView,
    pub frame_counter: u8,
    pub rendering_delay: u8,
    pub game_type: GameType,
    pub tiles: Seq<bool>,
    pub current_piece: Piece,
    pub next_piece: Piece,
    pub score: u32,
    pub level: u8,
    pub line_count: u16,
    pub initial_random_index: u16,
    pub modifier: Modifier,
}

impl MetaView {
    /// The invariant a meta state carries over from the gameplay state
    /// it summarizes.
    pub open spec fn wf(self) -> bool {
        &&& self.random.wf()
        &&& self.tiles.len() == 256
        &&& self.current_piece != Piece::NoPiece
        &&& self.next_piece != Piece::NoPiece
        &&& self.rendering_delay <= 5
        &&& (self.modifier.cap_score_at_999999 ==> self.score <= 999999)
    }
}

/// The gameplay state a meta state expands back into: a piece freshly
/// at the spawn pivot, unpaused, mid-`MoveTetrimino`, with the initial
/// per-spawn drop delay restored only when the summarized game has not
/// started scoring or stacking yet.
pub open spec fn spec_meta_to_gameplay(m: MetaView) -> GameView {
    GameView {
        dead: m.dead,
        paused: false,
        game_mode_state: GameModeState::HandleGameplay,
        play_state: PlayState::MoveTetrimino,
        checked_row_offset: 0u8,
        update_lines_delay: 0u8,
        previous_input: Input { bits: 0u8 },
        random: m.random,
        frame_counter: m.frame_counter,
        rendering_delay: m.rendering_delay,
        cleared_lines: 0u8,
        current_piece_x: 5i8,
        current_piece_y: 0i8,
        hold_down_points: 0u8,
        fall_timer: 0u8,
        drop_autorepeat: if m.line_count == 0 && (forall|i: int| 0 <= i < 256 ==> !m.tiles[i]) {
            -96i8
        } else {
            0i8
        },
        shift_autorepeat: 15u8,
        game_type: m.game_type,
        tiles: m.tiles,
        current_piece: m.current_piece,
        next_piece: m.next_piece,
        score: m.score,
        level: m.level,
        line_count: m.line_count,
        play_state_delay: 0u8,
        modifier: m.modifier,
    }
}

/// A reduced summary of a gameplay state at a piece spawn: only the
/// fields that determine the rest of the game, plus the frame count it
/// was reached at and the generator phase its menu inputs target.
///
/// The search that computes an optimal menu input sequence for a given
/// generator phase lives outside this crate; these constructors and
/// expansions are the verified halves it builds on.
#[derive(Clone, Debug)]
pub struct MetaState {
    pub frame: u32,
    pub dead: bool,
    pub random: Random,
    pub frame_counter: u8,
    pub rendering_delay: u8,
    pub game_type: GameType,
    pub tiles: Playfield,
    pub current_piece: Piece,
    pub next_piece: Piece,
    pub score: u32,
    pub level: u8,
    pub line_count: u16,
    pub initial_random_index: u16,
    pub modifier: Modifier,
}

impl View for MetaState {
    type V = MetaView;

    open spec fn view(&self) -> MetaView {
        MetaView {
            frame: self.frame,
            dead: self.dead,
            random: self.random@,
            frame_counter: self.frame_counter,
            rendering_delay: self.rendering_delay,
            game_type: self.game_type,
            tiles: self.tiles@,
            current_piece: self.current_piece,
            next_piece: self.next_piece,
            score: self.score,
            level: self.level,
            line_count: self.line_count,
            initial_random_index: self.initial_random_index,
            modifier: self.modifier,
        }
    }
}

impl MetaState {
    /// Well-formed meta states pair the state invariant with a correct
    /// generator table and a full playfield page.
    pub open spec fn wf(self) -> bool {
        &&& self@.wf()
        &&& self.random.wf()
        &&& self.tiles.wf()
    }

    /// Summarizes a gameplay state, recording the frame it was reached
    /// at and the generator phase its menu inputs targeted. The state
    /// is not checked to actually be at a piece spawn.
    pub fn from_gameplay_state_unchecked(
        state: &GameplayState,
        frame: u32,
        initial_random_index: u16,
    ) -> (r: Self)
        requires
            state.wf(),
        ensures
            r.wf(),
            r@ == (MetaView {
                frame,
                dead: state@.dead,
                random: state@.random,
                frame_counter: state@.frame_counter,
                rendering_delay: state@.rendering_delay,
                game_type: state@.game_type,
                tiles: state@.tiles,
                current_piece: state@.current_piece,
                next_piece: state@.next_piece,
                score: state@.score,
                level: state@.level,
                line_count: state@.line_count,
                initial_random_index,
                modifier: state@.modifier,
            }),
    {
        Self {
            frame,
            dead: state.dead,
            random: state.random.duplicate(),
            frame_counter: state.frame_counter,
            rendering_delay: state.rendering_delay,
            game_type: state.game_type,
            tiles: state.tiles.duplicate(),
            current_piece: state.current_piece,
            next_piece: state.next_piece,
            score: state.score,
            level: state.level,
            line_count: state.line_count,
            initial_random_index,
            modifier: state.modifier,
        }
    }

    /// Expands the summary back into a full gameplay state; see
    /// [`spec_meta_to_gameplay`].
    pub fn to_gameplay_state(&self) -> (r: GameplayState)
        requires
            self.wf(),
        ensures
            r.wf(),
            r@ == spec_meta_to_gameplay(self@),
    {
        let first_piece = self.line_count == 0 && self.tiles.none_set();
        GameplayState {
            dead: self.dead,
            paused: false,
            game_mode_state: GameModeState::HandleGameplay,
            play_state: PlayState::MoveTetrimino,
            checked_row_offset: 0,
            update_lines_delay: 0,
            previous_input: Input::new(),
            random: self.random.duplicate(),
            frame_counter: self.frame_counter,
            rendering_delay: self.rendering_delay,
            cleared_lines: 0,
            current_piece_x: 5,
            current_piece_y: 0,
            hold_down_points: 0,
            fall_timer: 0,
            drop_autorepeat: if first_piece {
                -96
            } else {
                0
            },
            shift_autorepeat: 15,
            game_type: self.game_type,
            tiles: self.tiles.duplicate(),
            current_piece: self.current_piece,
            next_piece: self.next_piece,
            score: self.score,
            level: self.level,
            line_count: self.line_count,
            play_state_delay: 0,
            modifier: self.modifier,
        }
    }
}

} // verus!
