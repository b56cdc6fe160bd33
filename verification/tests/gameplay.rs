use meta_nestris::game_type::GameType;
use meta_nestris::gameplay_state::GameplayState;
use meta_nestris::game_mode_state::GameModeState;
use meta_nestris::input::{DOWN, Input, LEFT, RIGHT, START};
use meta_nestris::modifier::Modifier;
use meta_nestris::piece::Piece;
use meta_nestris::play_state::PlayState;
use meta_nestris::random::Random;

fn new_game(game_type: GameType, level: u8) -> GameplayState {
    GameplayState::new(&Random::new(), 0, Input::new(), game_type, level, 0)
}

#[test]
fn fresh_type_a_game_draws_the_power_on_pieces() {
    let state = new_game(GameType::A, 0);
    assert_eq!(state.current_piece, Piece::ZHorizontal);
    assert_eq!(state.next_piece, Piece::IHorizontal);
    assert_eq!(state.random.index, 1);
    assert_eq!(state.score, 0);
    assert_eq!(state.line_count, 0);
    assert_eq!(state.current_piece_x, 5);
    assert_eq!(state.current_piece_y, 0);
    assert!(!state.dead);
    for x in 0..10 {
        for y in 0..20 {
            assert!(!state.get_tile(x, y));
        }
    }
}

/// Clearing exactly one row at level 0 of a type-A game awards
/// `40 * (level + 1) = 40` points and leaves the line counter at 1,
/// and the cells of the row above the cleared one move down by exactly
/// one row while the top row stays clear.
#[test]
fn single_line_clear_scores_forty_at_level_zero() {
    let mut state = new_game(GameType::A, 0);

    // bottom row full except the two columns the O piece will fill
    for c in [0usize, 1, 2, 3, 4, 5, 8, 9] {
        state.tiles.set(19 * 10 + c, true);
    }
    state.current_piece = Piece::O;
    state.current_piece_x = 7;
    state.current_piece_y = 18;
    state.play_state = PlayState::LockTetrimino;
    state.rendering_delay = 5;

    for _ in 0..60 {
        state.step(Input::new());
    }

    assert_eq!(state.score, 40);
    assert_eq!(state.line_count, 1);
    assert!(!state.dead);
    // the O piece's upper two cells moved down into the cleared row
    assert!(state.get_tile(6, 19));
    assert!(state.get_tile(7, 19));
    assert!(!state.get_tile(0, 19));
    assert!(!state.get_tile(6, 18));
    // the top row is all clear
    for c in 0..10 {
        assert!(!state.get_tile(c, 0));
    }
}

/// Holding Down with no horizontal input triggers one manual drop per
/// 2-frame interval, each awarding one hold-down point.
#[test]
fn held_down_drops_every_second_frame() {
    let mut state = new_game(GameType::A, 0);
    let down = Input::from_bits(DOWN);

    // frame 1: the fresh Down press ends the initial delay and arms
    // the soft drop
    state.step(down);
    assert_eq!(state.hold_down_points, 0);
    assert_eq!(state.current_piece_y, 0);

    for _ in 0..6 {
        state.step(down);
    }
    assert_eq!(state.hold_down_points, 3);
    assert_eq!(state.current_piece_y, 3);
}

/// A type-B game starts from the goal of 25 lines, keeps it while no
/// rows clear, counts it down by the cleared rows, and never goes
/// below zero.
#[test]
fn type_b_line_goal_counts_down_to_zero() {
    let mut state = new_game(GameType::B, 0);
    assert_eq!(state.line_count, 25);

    for _ in 0..50 {
        state.step(Input::new());
    }
    assert_eq!(state.line_count, 25);

    state.play_state = PlayState::UpdateLinesAndStatistics;
    state.play_state_delay = 0;
    state.cleared_lines = 3;
    state.step(Input::new());
    assert_eq!(state.line_count, 22);

    state.line_count = 2;
    state.play_state = PlayState::UpdateLinesAndStatistics;
    state.play_state_delay = 0;
    state.cleared_lines = 3;
    state.step(Input::new());
    assert_eq!(state.line_count, 0);

    state.play_state = PlayState::UpdateLinesAndStatistics;
    state.play_state_delay = 0;
    state.cleared_lines = 4;
    state.step(Input::new());
    assert_eq!(state.line_count, 0);
}

/// A piece that cannot validly occupy its locked position ends the
/// game: `dead` is false on the second-to-last frame and true on the
/// last, and afterwards no step changes anything.
#[test]
fn blocked_lock_position_ends_the_game() {
    let mut state = new_game(GameType::A, 0);
    for c in 0..10 {
        for r in 0..4 {
            state.tiles.set(r * 10 + c, true);
        }
    }
    state.drop_autorepeat = 0;
    state.fall_timer = 100;

    state.step(Input::new());
    assert!(!state.dead);
    assert_eq!(state.play_state, PlayState::LockTetrimino);

    state.step(Input::new());
    assert!(state.dead);

    let score = state.score;
    let line_count = state.line_count;
    let index = state.random.index;
    let frame_counter = state.frame_counter;
    for bits in [0u8, 0x10, 0xFF, 0x04, 0x80] {
        state.step(Input::from_bits(bits));
    }
    assert!(state.dead);
    assert_eq!(state.score, score);
    assert_eq!(state.line_count, line_count);
    assert_eq!(state.random.index, index);
    assert_eq!(state.frame_counter, frame_counter);
}

/// With the capped configuration the score never exceeds 999999, even
/// when a tetris at a high level would push it past the bound.
#[test]
fn score_caps_at_999999() {
    let mut state = new_game(GameType::A, 0);
    state.score = 999_999;
    state.level = 5;
    state.play_state = PlayState::UpdateLinesAndStatistics;
    state.play_state_delay = 0;
    state.cleared_lines = 4;
    state.step(Input::new());
    assert_eq!(state.score, 999_999);
}

/// Without the cap the same update pushes the score past the bound.
#[test]
fn uncapped_configuration_lets_the_score_exceed_the_bound() {
    let modifier = Modifier { cap_score_at_999999: false, select_adds_20_levels: false };
    let mut state = GameplayState::new_with_modifier(
        &Random::new(),
        0,
        Input::new(),
        GameType::A,
        0,
        0,
        modifier,
    );
    state.score = 999_999;
    state.play_state = PlayState::UpdateLinesAndStatistics;
    state.play_state_delay = 0;
    state.cleared_lines = 1;
    state.step(Input::new());
    assert_eq!(state.score, 1_000_039);
}

/// The hold-down score addition only ever touches the low two decimal
/// digits and deliberately does not carry into the higher digits on
/// decimal overflow: 99 points plus 5 pending hold-down points come
/// out as exactly 100.
#[test]
fn hold_down_points_never_carry_past_the_low_digits() {
    let mut state = new_game(GameType::A, 0);
    state.score = 99;
    state.hold_down_points = 5;
    state.play_state = PlayState::UpdateLinesAndStatistics;
    state.play_state_delay = 0;
    state.cleared_lines = 0;
    state.step(Input::new());
    assert_eq!(state.score, 100);
    assert_eq!(state.hold_down_points, 0);
}

/// A fresh Start press pauses the machine; while paused only another
/// fresh Start press does anything, and it unpauses.
#[test]
fn start_pauses_and_unpauses() {
    let mut state = new_game(GameType::A, 0);
    state.step(Input::from_bits(START));
    assert!(state.paused);

    let index = state.random.index;
    state.step(Input::from_bits(START));
    // Start is still held: not a fresh press, stays paused
    assert!(state.paused);
    state.step(Input::new());
    assert!(state.paused);
    state.step(Input::from_bits(START));
    assert!(!state.paused);
    // the per-frame generator tick ran on every one of those frames
    assert_eq!(state.random.index, index + 3);
}

/// Two games stepped from the same state with the same inputs stay
/// bit-identical in every observable field.
#[test]
fn replays_are_deterministic() {
    let mut a = new_game(GameType::B, 3);
    let mut b = new_game(GameType::B, 3);
    let script: [u8; 10] = [0x04, 0x04, 0x01, 0x81, 0x80, 0x00, 0x02, 0x42, 0x10, 0x10];
    for _ in 0..30 {
        for &bits in script.iter() {
            a.step(Input::from_bits(bits));
            b.step(Input::from_bits(bits));
        }
    }
    assert_eq!(a.score, b.score);
    assert_eq!(a.line_count, b.line_count);
    assert_eq!(a.dead, b.dead);
    assert_eq!(a.random.index, b.random.index);
    assert_eq!(a.current_piece, b.current_piece);
    assert_eq!(a.current_piece_x, b.current_piece_x);
    assert_eq!(a.current_piece_y, b.current_piece_y);
    for i in 0..200 {
        assert_eq!(a.get_tile(i % 10, i / 10), b.get_tile(i % 10, i / 10));
    }
}

/// The lowest type-B height selection clears the whole playfield: all
/// twelve garbage rows fall above its cutoff.
#[test]
fn type_b_lowest_height_leaves_an_empty_playfield() {
    let state = new_game(GameType::B, 0);
    for y in 0..20 {
        for x in 0..10 {
            assert!(!state.get_tile(x, y), "cell {},{} should be clear", x, y);
        }
    }
}

/// The tallest type-B height selection keeps twelve garbage rows: each
/// holds at least one set cell and one hole, the leftmost cell of the
/// highest garbage row is additionally cleared, and the topmost row
/// comes out exactly as the power-on generator phase dictates.
#[test]
fn type_b_playfield_has_garbage_rows_with_holes() {
    let state = GameplayState::new(&Random::new(), 0, Input::new(), GameType::B, 0, 5);
    for y in 0..8 {
        for x in 0..10 {
            assert!(!state.get_tile(x, y), "row {} should be clear", y);
        }
    }
    // the reproduced extra clear: leftmost cell of the highest garbage
    // row (here already a hole of the draw itself)
    assert!(!state.get_tile(0, 8));
    // exact garbage of row 8 for the power-on generator phase
    let row8 = [false, false, false, false, false, true, false, true, false, true];
    for x in 0..10 {
        assert_eq!(state.get_tile(x, 8), row8[x], "row 8 col {}", x);
    }
    for y in 8..20 {
        let mut holes = 0;
        for x in 0..10 {
            if !state.get_tile(x, y) {
                holes += 1;
            }
        }
        assert!(holes >= 1, "row {} has no hole", y);
        assert!(holes < 10, "row {} is empty", y);
    }
}

/// Type-A level progression: on every tenth line the level rises while
/// it lags the target encoded by the counter's middle digits, so
/// reaching 10 lines at level 0 advances to level 1.
#[test]
fn tenth_line_advances_the_level() {
    let mut state = new_game(GameType::A, 0);
    state.line_count = 9;
    state.play_state = PlayState::UpdateLinesAndStatistics;
    state.play_state_delay = 0;
    state.cleared_lines = 1;
    state.step(Input::new());
    assert_eq!(state.line_count, 10);
    assert_eq!(state.level, 1);

    // a selected level above the target does not advance
    let mut high = new_game(GameType::A, 9);
    high.line_count = 9;
    high.play_state = PlayState::UpdateLinesAndStatistics;
    high.play_state_delay = 0;
    high.cleared_lines = 1;
    high.step(Input::new());
    assert_eq!(high.line_count, 10);
    assert_eq!(high.level, 9);
}

/// The automatic drop fires exactly when the fall timer reaches the
/// level's threshold: 48 frames at level 0.
#[test]
fn automatic_drop_fires_at_the_level_threshold() {
    let mut state = new_game(GameType::A, 0);
    state.drop_autorepeat = 0;

    state.fall_timer = 46;
    state.step(Input::new());
    // the timer ticked to 47, below the threshold: no drop
    assert_eq!(state.current_piece_y, 0);
    assert_eq!(state.fall_timer, 47);

    state.step(Input::new());
    // the timer reached 48: the piece dropped and the timer reset
    assert_eq!(state.current_piece_y, 1);
    assert_eq!(state.fall_timer, 0);
}

/// The reproduced frame-truncation quirk: holding Right, Left and Down
/// at once ends the frame before the start-button half runs, leaving
/// the sequencer in its start-button state.
#[test]
fn right_left_down_truncates_the_frame() {
    let mut state = new_game(GameType::A, 0);
    state.step(Input::from_bits(RIGHT | LEFT | DOWN));
    assert_eq!(state.game_mode_state, GameModeState::HandleStartButton);

    state.step(Input::new());
    assert_eq!(state.game_mode_state, GameModeState::HandleGameplay);
}
