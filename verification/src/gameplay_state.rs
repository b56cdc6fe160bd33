use crate::game_mode_state::GameModeState;
use crate::game_type::GameType;
use crate::input::{A_BUTTON, B_BUTTON, DOWN, Input, LEFT, RIGHT, START, UP};
use crate::modifier::Modifier;
use crate::piece::Piece;
use crate::play_state::PlayState;
use crate::playfield::{
    Playfield, lemma_row_clear_shifts_down, spec_cell, spec_cleared_prefix, spec_row_full,
    spec_shifted_down,
};
use crate::random::{
    Random, RandomView, lemma_get_piece_wf, lfsr_value, spec_cycle, spec_cycle_search,
    spec_get_piece, spec_reject_high,
};
use vstd::prelude::*;
use vstd::wrapping::{i8_specs, u16_specs, u32_specs, u8_specs};

verus! {

/// The mathematical state of a gameplay machine: every field the
/// per-frame sequencer reads or writes, with the playfield as a plain
/// cell sequence and the generator as its [`RandomView`].
#[verifier::ext_equal]
pub ghost struct GameView {
    pub dead: bool,
    pub paused: bool,
    pub game_mode_state: GameModeState,
    pub play_state: PlayState,
    pub checked_row_offset: u8,
    pub update_lines_delay: u8,
    pub previous_input: Input,
    pub random: RandomView,
    pub frame_counter: u8,
    pub rendering_delay: u8,
    pub cleared_lines: u8,
    pub current_piece_x: i8,
    pub current_piece_y: i8,
    pub hold_down_points: u8,
    pub fall_timer: u8,
    pub drop_autorepeat: i8,
    pub shift_autorepeat: u8,
    pub game_type: GameType,
    pub tiles: Seq<bool>,
    pub current_piece: Piece,
    pub next_piece: Piece,
    pub score: u32,
    pub level: u8,
    pub line_count: u16,
    pub play_state_delay: u8,
    pub modifier: Modifier,
}

impl GameView {
    /// The invariant every reachable gameplay state keeps: pieces are
    /// real, the pivot sits inside the visible field, the pacing
    /// counters stay inside their windows, and under the capped
    /// configuration the score never exceeds 999999.
    pub open spec fn wf(self) -> bool {
        &&& self.random.wf()
        &&& self.tiles.len() == 256
        &&& self.current_piece != Piece::NoPiece
        &&& self.next_piece != Piece::NoPiece
        &&& 0 <= self.current_piece_x <= 9
        &&& 0 <= self.current_piece_y <= 19
        &&& self.rendering_delay <= 5
        &&& self.drop_autorepeat <= 2
        &&& self.cleared_lines <= 4
        &&& (self.play_state == PlayState::CheckForCompletedRows ==> self.checked_row_offset <= 3
            && self.cleared_lines <= self.checked_row_offset)
        &&& ((self.play_state == PlayState::MoveTetrimino || self.play_state
            == PlayState::LockTetrimino || self.play_state == PlayState::SpawnNextTetrimino)
            ==> self.cleared_lines == 0)
        &&& (self.modifier.cap_score_at_999999 ==> self.score <= 999999)
    }
}

/// The frames an automatic drop waits for at each level: a 29-entry
/// table, clamped to 1 beyond its range.
pub open spec fn spec_level_delay(level: u8) -> u8 {
    if level >= 29 {
        1
    } else if level >= 19 {
        2
    } else if level >= 16 {
        3
    } else if level >= 13 {
        4
    } else if level >= 10 {
        5
    } else if level == 9 {
        6
    } else if level == 8 {
        8
    } else if level == 7 {
        13
    } else if level == 6 {
        18
    } else if level == 5 {
        23
    } else if level == 4 {
        28
    } else if level == 3 {
        33
    } else if level == 2 {
        38
    } else if level == 1 {
        43
    } else {
        48
    }
}

/// The base points one lock awards for clearing 0 to 4 rows, before the
/// level multiplier.
pub open spec fn spec_line_points(cleared: u8) -> u16 {
    if cleared == 0 {
        0
    } else if cleared == 1 {
        40
    } else if cleared == 2 {
        100
    } else if cleared == 3 {
        300
    } else {
        1200
    }
}

/// The cell index a signed position maps to. Non-negative rows use the
/// plain `row * 10 + col` addressing; negative rows reproduce the
/// original's 8-bit overflow artifact, which folds them into the
/// spill-over rows above index 230.
pub open spec fn spec_tile_index(tx: int, ty: int) -> int {
    if ty >= 0 {
        ty * 10 + tx
    } else {
        let fx = tx + 6;
        let fy = ty + 25;
        if fx >= 10 {
            (fy + 1) * 10 + (fx - 10)
        } else {
            fy * 10 + fx
        }
    }
}

/// Whether the `k`-th cell of `piece` pivoted at `(x, y)` lies inside
/// the column range and above the floor, on an unoccupied cell.
pub open spec fn spec_offset_ok(t: Seq<bool>, piece: Piece, x: i8, y: i8, k: int) -> bool {
    let dx = piece.spec_tile_offsets()[k].0;
    let dy = piece.spec_tile_offsets()[k].1;
    &&& 0 <= x + dx < 10
    &&& y + dy < 20
    &&& !t[spec_tile_index(x + dx, y + dy)]
}

/// Whether `piece` pivoted at `(x, y)` may occupy its four cells.
pub open spec fn spec_fits(t: Seq<bool>, piece: Piece, x: i8, y: i8) -> bool {
    forall|k: int| 0 <= k < 4 ==> spec_offset_ok(t, piece, x, y, k)
}

/// The state after an attempted piece placement: on a fit the piece,
/// pivot column and pivot row are committed; otherwise nothing changes.
pub open spec fn spec_try_set(g: GameView, piece: Piece, x: i8, y: i8) -> GameView {
    if spec_fits(g.tiles, piece, x, y) {
        GameView { current_piece: piece, current_piece_x: x, current_piece_y: y, ..g }
    } else {
        g
    }
}

/// The cell index the lock stamps for the `k`-th offset: the original
/// computes it in 8 bits, so the index is the position's low byte.
pub open spec fn spec_stamp_index(piece: Piece, x: i8, y: i8, k: int) -> u8 {
    let dx = piece.spec_tile_offsets()[k].0;
    let dy = piece.spec_tile_offsets()[k].1;
    ((y + dy) * 10 + (x + dx)) as u8
}

/// The playfield after the first `n` cells of the locking piece have
/// been stamped in.
pub open spec fn spec_stamp(t: Seq<bool>, piece: Piece, x: i8, y: i8, n: int) -> Seq<bool>
    decreases n,
{
    if n <= 0 {
        t
    } else {
        spec_stamp(t, piece, x, y, n - 1).update(spec_stamp_index(piece, x, y, n - 1) as int, true)
    }
}

/// The rendering-delay clamp applied when a piece stops: the counter is
/// limited by the highest playfield row the lock may touch.
pub open spec fn spec_update_rendered(g: GameView) -> GameView {
    let highest = if g.current_piece_y >= 2 {
        (g.current_piece_y - 2) as u8
    } else {
        0u8
    };
    let prod = g.rendering_delay * 4;
    let m = if prod < highest {
        prod
    } else {
        highest as int
    };
    GameView { rendering_delay: (m / 4) as u8, ..g }
}

/// One shift attempt after the autorepeat gate has opened: one cell
/// right if Right is held (also when both directions are held), else
/// one cell left; a rejected move cancels the autorepeat.
pub open spec fn spec_shift_attempt(g: GameView, input: Input) -> GameView {
    let new_x = if input.spec_get(RIGHT) {
        i8_specs::wrapping_add(g.current_piece_x, 1)
    } else {
        i8_specs::wrapping_sub(g.current_piece_x, 1)
    };
    let g1 = spec_try_set(g, g.current_piece, new_x, g.current_piece_y);
    if spec_fits(g.tiles, g.current_piece, new_x, g.current_piece_y) {
        g1
    } else {
        GameView { shift_autorepeat: 0u8, ..g1 }
    }
}

/// The shift handler: ignored while Down is held or no direction is
/// held; a fresh press re-arms the autorepeat at 15 and moves at once;
/// a held direction moves only when the counter runs out, re-arming it
/// at 5.
pub open spec fn spec_try_shift(g: GameView, input: Input) -> GameView {
    if input.spec_get(DOWN) {
        g
    } else if !input.spec_get(LEFT) && !input.spec_get(RIGHT) {
        g
    } else {
        let pressed = input.spec_difference(g.previous_input);
        if pressed.spec_get(LEFT) || pressed.spec_get(RIGHT) {
            spec_shift_attempt(GameView { shift_autorepeat: 15u8, ..g }, input)
        } else if g.shift_autorepeat == 0 {
            spec_shift_attempt(GameView { shift_autorepeat: 5u8, ..g }, input)
        } else {
            GameView { shift_autorepeat: (g.shift_autorepeat - 1) as u8, ..g }
        }
    }
}

/// The rotation handler: a fresh A press attempts clockwise, a fresh B
/// press counterclockwise, A taking priority; a rejected rotation
/// leaves the piece unchanged and no wall kick is tried.
pub open spec fn spec_try_rotate(g: GameView, input: Input) -> GameView {
    let pressed = input.spec_difference(g.previous_input);
    if pressed.spec_get(A_BUTTON) {
        spec_try_set(
            g,
            g.current_piece.spec_clockwise_rotation(),
            g.current_piece_x,
            g.current_piece_y,
        )
    } else if pressed.spec_get(B_BUTTON) {
        spec_try_set(
            g,
            g.current_piece.spec_counterclockwise_rotation(),
            g.current_piece_x,
            g.current_piece_y,
        )
    } else {
        g
    }
}

/// The counter half of the drop handler: the initial-delay, idle and
/// soft-drop regimes of the signed autorepeat counter. Yields the new
/// state, whether the frame's drop handling ends here, and whether a
/// manual drop triggered.
pub open spec fn spec_drop_counters(g: GameView, input: Input) -> (GameView, bool, bool) {
    let pressed = input.spec_difference(g.previous_input);
    if g.drop_autorepeat < 0 && !pressed.spec_get(DOWN) {
        (GameView { drop_autorepeat: i8_specs::wrapping_add(g.drop_autorepeat, 1), ..g }, true, false)
    } else {
        let g0 = if g.drop_autorepeat < 0 {
            GameView { drop_autorepeat: 0i8, ..g }
        } else {
            g
        };
        let manual = g0.drop_autorepeat >= 1 && input.spec_get(DOWN) && !input.spec_get(LEFT)
            && !input.spec_get(RIGHT) && !input.spec_get(UP) && i8_specs::wrapping_add(
            g0.drop_autorepeat,
            1,
        ) >= 3;
        let g1 = if g0.drop_autorepeat == 0 {
            if pressed.spec_get(DOWN) && !input.spec_get(LEFT) && !input.spec_get(RIGHT)
                && !pressed.spec_get(UP) {
                GameView { drop_autorepeat: 1i8, ..g0 }
            } else {
                g0
            }
        } else {
            if input.spec_get(DOWN) && !input.spec_get(LEFT) && !input.spec_get(RIGHT)
                && !input.spec_get(UP) {
                let dar = i8_specs::wrapping_add(g0.drop_autorepeat, 1);
                if dar >= 3 {
                    GameView {
                        drop_autorepeat: 1i8,
                        hold_down_points: u8_specs::wrapping_add(g0.hold_down_points, 1),
                        ..g0
                    }
                } else {
                    GameView { drop_autorepeat: dar, ..g0 }
                }
            } else {
                GameView { drop_autorepeat: 0i8, hold_down_points: 0u8, ..g0 }
            }
        };
        (g1, false, manual)
    }
}

/// The drop handler: a negative autorepeat counts an initial per-spawn
/// delay only a fresh Down press cuts short; a fresh solitary Down
/// arms manual soft-drop; a held solitary Down drops one cell every
/// time the counter reaches 3, awarding one hold-down point. A
/// periodic automatic drop fires whenever the fall timer reaches the
/// level's delay. A rejected drop locks the piece instead of moving it.
pub open spec fn spec_try_drop(g: GameView, input: Input) -> GameView {
    let counted = spec_drop_counters(g, input);
    let g1 = counted.0;
    if counted.1 {
        g1
    } else {
        let drop = counted.2 || g1.fall_timer >= spec_level_delay(g1.level);
        if drop {
            let g2 = GameView { fall_timer: 0u8, ..g1 };
            let new_y = i8_specs::wrapping_add(g2.current_piece_y, 1);
            if spec_fits(g2.tiles, g2.current_piece, g2.current_piece_x, new_y) {
                spec_try_set(g2, g2.current_piece, g2.current_piece_x, new_y)
            } else {
                spec_update_rendered(GameView { play_state: PlayState::LockTetrimino, ..g2 })
            }
        } else {
            g1
        }
    }
}

/// The lock handler: an invalid resting position is the single lose
/// condition and sets `dead`; a valid one waits for the rendering
/// budget, then stamps the four cells, resets the row scan and clamps
/// the rendering delay.
pub open spec fn spec_lock(g: GameView) -> GameView {
    if !spec_fits(g.tiles, g.current_piece, g.current_piece_x, g.current_piece_y) {
        GameView { dead: true, ..g }
    } else if g.rendering_delay >= 5 {
        let stamped = spec_stamp(g.tiles, g.current_piece, g.current_piece_x, g.current_piece_y, 4);
        spec_update_rendered(
            GameView {
                tiles: stamped,
                checked_row_offset: 0u8,
                play_state: PlayState::CheckForCompletedRows,
                ..g
            },
        )
    } else {
        g
    }
}

/// The row the scan examines this frame: two rows above the pivot,
/// floored at the top, plus the scan offset.
pub open spec fn spec_checked_row(g: GameView) -> int {
    (if g.current_piece_y < 2 {
        0
    } else {
        g.current_piece_y - 2
    }) + g.checked_row_offset
}

/// One frame of the staggered row scan: gated by the rendering budget;
/// a full row is consumed by moving the block above it down one row
/// (with the original's reduced 246-cell block when row 0 clears); the
/// fourth scan closes the lock and hands over to the statistics update,
/// through the delay state when any row cleared.
pub open spec fn spec_check_row(g: GameView) -> GameView {
    if g.rendering_delay < 5 {
        g
    } else {
        let row = spec_checked_row(g);
        let full = spec_row_full(g.tiles, row);
        let moved = if row > 0 {
            row * 10
        } else {
            246
        };
        let t1 = if full {
            spec_shifted_down(g.tiles, moved)
        } else {
            g.tiles
        };
        let cl1 = if full {
            u8_specs::wrapping_add(g.cleared_lines, 1)
        } else {
            g.cleared_lines
        };
        let off1 = u8_specs::wrapping_add(g.checked_row_offset, 1);
        if off1 == 4 {
            GameView {
                tiles: t1,
                cleared_lines: cl1,
                checked_row_offset: off1,
                rendering_delay: 0u8,
                update_lines_delay: 5u8,
                play_state: if cl1 == 0 {
                    PlayState::UpdateLinesAndStatistics
                } else {
                    PlayState::DoNothing
                },
                ..g
            }
        } else {
            GameView { tiles: t1, cleared_lines: cl1, checked_row_offset: off1, ..g }
        }
    }
}

/// One line-counter tick of a type-A update: the counter advances
/// modulo 10000, and on every tenth line the level rises while it lags
/// the target the counter's middle digits encode.
pub open spec fn spec_inc_lines_once(lc: u16, level: u8) -> (u16, u8) {
    let lc1 = (u16_specs::wrapping_add(lc, 1) % 10000) as u16;
    if lc1 % 10 == 0 {
        let mid = ((lc1 / 10) % 100) as u8;
        let target = (mid + 6 * (mid / 10)) as u8;
        if level < target {
            (lc1, (level + 1) as u8)
        } else {
            (lc1, level)
        }
    } else {
        (lc1, level)
    }
}

/// The line counter and level after `n` type-A ticks.
pub open spec fn spec_inc_lines(lc: u16, level: u8, n: int) -> (u16, u8)
    decreases n,
{
    if n <= 0 {
        (lc, level)
    } else {
        let prev = spec_inc_lines(lc, level, n - 1);
        spec_inc_lines_once(prev.0, prev.1)
    }
}

/// Binary-coded-decimal encoding of a two-digit value.
pub open spec fn spec_to_bcd(n: u8) -> u8
    recommends
        n < 100,
{
    (n + 6 * (n / 10)) as u8
}

/// Decimal value of a byte read as two packed BCD digits.
pub open spec fn spec_from_bcd(n: u8) -> u8 {
    ((n / 16) * 10 + (n % 16)) as u8
}

/// The score after pending hold-down points are folded in: the points
/// less one are added to the low two digits in emulated BCD, and the
/// addition deliberately never carries into the higher digits, even on
/// decimal overflow — a faithful quirk of the original.
pub open spec fn spec_hold_down_score(score: u32, hold_down_points: u8) -> u32 {
    let low = spec_from_bcd(
        u8_specs::wrapping_sub(
            u8_specs::wrapping_add(spec_to_bcd((score % 100) as u8), hold_down_points),
            1,
        ),
    );
    let s1 = u32_specs::wrapping_add(((score / 100) * 100) as u32, low as u32);
    if low >= 100 {
        ((s1 / 10) * 10) as u32
    } else {
        s1
    }
}

/// The statistics update a finished lock runs: the line counter and
/// level move as the game type directs, pending hold-down points fold
/// into the score, the cleared rows award their level-scaled points,
/// the score is capped when the configuration says so, and the spawn
/// wait begins.
pub open spec fn spec_update_stats(g: GameView) -> GameView {
    let counted = if g.game_type == GameType::A {
        spec_inc_lines(g.line_count, g.level, g.cleared_lines as int)
    } else {
        (
            if g.line_count > g.cleared_lines {
                (g.line_count - g.cleared_lines) as u16
            } else {
                0u16
            },
            g.level,
        )
    };
    let score1 = if g.hold_down_points >= 2 {
        spec_hold_down_score(g.score, g.hold_down_points)
    } else {
        g.score
    };
    let award = spec_line_points(g.cleared_lines) * (u8_specs::wrapping_add(counted.1, 1) as int);
    let score2 = u32_specs::wrapping_add(score1, award as u32);
    let score3 = if g.modifier.cap_score_at_999999 && score2 > 999999 {
        999999u32
    } else {
        score2
    };
    GameView {
        line_count: counted.0,
        level: counted.1,
        hold_down_points: 0u8,
        score: score3,
        cleared_lines: 0u8,
        play_state: PlayState::SpawnNextTetrimino,
        play_state_delay: 2u8,
        ..g
    }
}

/// The spawn handler: gated by the rendering budget; the next piece
/// becomes current at the spawn pivot, a fresh next piece is drawn, and
/// the fall and drop counters reset.
pub open spec fn spec_spawn(g: GameView) -> GameView {
    if g.rendering_delay < 5 {
        g
    } else {
        let drawn = spec_get_piece(g.random);
        GameView {
            fall_timer: 0u8,
            current_piece_y: 0i8,
            play_state: PlayState::MoveTetrimino,
            current_piece_x: 5i8,
            current_piece: g.next_piece,
            next_piece: drawn.1,
            random: drawn.0,
            drop_autorepeat: 0i8,
            ..g
        }
    }
}

/// The play-phase dispatch: shift, then rotate, then drop in
/// `MoveTetrimino`; otherwise the handler the phase names.
pub open spec fn spec_run_play_state(g: GameView, input: Input) -> GameView {
    match g.play_state {
        PlayState::MoveTetrimino => spec_try_drop(
            spec_try_rotate(spec_try_shift(g, input), input),
            input,
        ),
        PlayState::LockTetrimino => spec_lock(g),
        PlayState::CheckForCompletedRows => spec_check_row(g),
        PlayState::DoNothing => g,
        PlayState::UpdateLinesAndStatistics => spec_update_stats(g),
        PlayState::SpawnNextTetrimino => spec_spawn(g),
    }
}

/// The game-mode dispatch of one frame: the gameplay half runs the
/// play-phase operation (unless the spawn wait is still counting) and
/// hands over to the start-button half; death or the reproduced
/// Right+Left+Down quirk truncates the frame; the start-button half
/// pauses on a fresh Start.
pub open spec fn spec_step_main(g: GameView, input: Input) -> GameView {
    let g1 = if g.game_mode_state == GameModeState::HandleGameplay {
        let ga = GameView { fall_timer: u8_specs::wrapping_add(g.fall_timer, 1), ..g };
        let gb = if ga.play_state_delay > 0 {
            GameView { play_state_delay: (ga.play_state_delay - 1) as u8, ..ga }
        } else {
            spec_run_play_state(ga, input)
        };
        GameView { game_mode_state: GameModeState::HandleStartButton, ..gb }
    } else {
        g
    };
    if g.game_mode_state == GameModeState::HandleGameplay && (g1.dead || input == (Input {
        bits: RIGHT | LEFT | DOWN,
    })) {
        g1
    } else {
        let g2 = if g1.game_mode_state == GameModeState::HandleStartButton
            && input.spec_difference(g1.previous_input).spec_get(START) {
            GameView { paused: true, ..g1 }
        } else {
            g1
        };
        GameView { game_mode_state: GameModeState::HandleGameplay, ..g2 }
    }
}

/// The unconditional head of a live frame: the frame counter and the
/// generator tick, then either the pause gate, the line-update delay or
/// the rendering-delay counter advances.
pub open spec fn spec_step_pre(g: GameView, input: Input) -> GameView {
    let ga = GameView {
        frame_counter: (u8_specs::wrapping_add(g.frame_counter, 1) % 4) as u8,
        random: spec_cycle(g.random),
        ..g
    };
    if ga.paused {
        if input.spec_difference(ga.previous_input) == (Input { bits: START }) {
            GameView {
                rendering_delay: 0u8,
                game_mode_state: GameModeState::Unpause,
                paused: false,
                ..ga
            }
        } else {
            ga
        }
    } else if ga.play_state == PlayState::DoNothing {
        if ga.frame_counter == 1 {
            let d = u8_specs::wrapping_sub(ga.update_lines_delay, 1);
            GameView {
                update_lines_delay: d,
                play_state: if d == 0 {
                    PlayState::UpdateLinesAndStatistics
                } else {
                    PlayState::DoNothing
                },
                ..ga
            }
        } else {
            ga
        }
    } else if ga.rendering_delay < 5 {
        GameView { rendering_delay: (ga.rendering_delay + 1) as u8, ..ga }
    } else {
        ga
    }
}

/// One full frame: a dead machine never changes; otherwise the frame
/// counter and generator tick unconditionally, the pause gate or the
/// delay counters advance, the main dispatch runs unless paused, and
/// the input snapshot is remembered for the next frame.
pub open spec fn spec_step(g: GameView, input: Input) -> GameView {
    if g.dead {
        g
    } else {
        let gb = spec_step_pre(g, input);
        let gc = if !gb.paused {
            spec_step_main(gb, input)
        } else {
            gb
        };
        GameView { previous_input: input, ..gc }
    }
}

/// The cell a type-B garbage draw fills: the original's fixed 8-entry
/// boolean lookup table, keyed by the byte modulo 8.
pub open spec fn spec_b_rng_cell(v: u8) -> bool {
    v % 8 == 1 || v % 8 == 3 || v % 8 == 4 || v % 8 == 5
}

/// The number of rows a type-B height selection leaves standing,
/// counted from the playfield top: the original's 6-entry height table.
pub open spec fn spec_b_height(height_index: u8) -> u8 {
    if height_index == 0 {
        20
    } else if height_index == 1 {
        17
    } else if height_index == 2 {
        15
    } else if height_index == 3 {
        12
    } else if height_index == 4 {
        10
    } else {
        8
    }
}

/// One garbage row being filled right to left: each cell costs one
/// cycle and takes its value from the byte table.
pub open spec fn spec_b_fill_row(t: Seq<bool>, r: RandomView, y: int, x: int) -> (
    Seq<bool>,
    RandomView,
)
    decreases x + 1,
{
    if x < 0 {
        (t, r)
    } else {
        let r1 = spec_cycle(r);
        let t1 = t.update(y * 10 + x, spec_b_rng_cell(lfsr_value(r1.index as int)));
        spec_b_fill_row(t1, r1, y, x - 1)
    }
}

/// The garbage rows from `y` down: each row costs one extra cycle, is
/// filled right to left, and then gets a guaranteed hole at a
/// rejection-sampled position below 10.
pub open spec fn spec_b_init_rows(t: Seq<bool>, r: RandomView, y: int) -> (Seq<bool>, RandomView)
    decreases 20 - y,
{
    if y >= 20 {
        (t, r)
    } else {
        let r1 = spec_cycle(r);
        let filled = spec_b_fill_row(t, r1, y, 9);
        let r2 = spec_cycle_search(filled.1, spec_reject_high());
        let hole = lfsr_value(r2.index as int) % 16;
        let t2 = filled.0.update(y * 10 + hole, false);
        spec_b_init_rows(t2, r2, y + 1)
    }
}

/// The type-B pre-population of the playfield: twelve garbage rows are
/// drawn, then everything above the selected height is cleared — along
/// with one extra cell, the leftmost of the highest garbage row, a
/// reproduced behavior of the original.
pub open spec fn spec_init_b_tiles(g: GameView, height_index: u8) -> GameView {
    let rows = spec_b_init_rows(g.tiles, g.random, 8);
    GameView {
        tiles: spec_cleared_prefix(rows.0, spec_b_height(height_index) * 10 + 1),
        random: rows.1,
        ..g
    }
}

/// A freshly constructed gameplay state, as handed over by the menu
/// machine: the first piece is drawn, one extra cycle runs, the next
/// piece is drawn, and a type-B game pre-populates its playfield.
pub open spec fn spec_new_game(
    random: RandomView,
    frame_counter: u8,
    previous_input: Input,
    game_type: GameType,
    level: u8,
    b_type_height: u8,
    modifier: Modifier,
) -> GameView {
    let base = GameView {
        dead: false,
        paused: false,
        game_mode_state: GameModeState::HandleGameplay,
        play_state: PlayState::MoveTetrimino,
        checked_row_offset: 0u8,
        update_lines_delay: 0u8,
        previous_input,
        random,
        frame_counter,
        rendering_delay: 0u8,
        cleared_lines: 0u8,
        current_piece_x: 5i8,
        current_piece_y: 0i8,
        hold_down_points: 0u8,
        fall_timer: 0u8,
        drop_autorepeat: -96i8,
        shift_autorepeat: 15u8,
        game_type,
        tiles: Seq::new(256, |i: int| false),
        current_piece: Piece::NoPiece,
        next_piece: Piece::NoPiece,
        score: 0u32,
        level,
        line_count: if game_type == GameType::A {
            0u16
        } else {
            25u16
        },
        play_state_delay: 0u8,
        modifier,
    };
    let d1 = spec_get_piece(base.random);
    let g1 = GameView { current_piece: d1.1, random: spec_cycle(d1.0), ..base };
    let d2 = spec_get_piece(g1.random);
    let g2 = GameView { next_piece: d2.1, random: d2.0, ..g1 };
    if game_type == GameType::B {
        spec_init_b_tiles(g2, b_type_height)
    } else {
        g2
    }
}

/// Filling a garbage row preserves the playfield's length.
pub proof fn lemma_b_fill_row_len(t: Seq<bool>, r: RandomView, y: int, x: int)
    requires
        t.len() == 256,
        0 <= y < 20,
        x <= 9,
    ensures
        spec_b_fill_row(t, r, y, x).0.len() == 256,
        spec_b_fill_row(t, r, y, x).1.piece_counter == r.piece_counter,
        spec_b_fill_row(t, r, y, x).1.last_piece == r.last_piece,
        r.wf() ==> spec_b_fill_row(t, r, y, x).1.wf(),
    decreases x + 1,
{
    if x >= 0 {
        let r1 = spec_cycle(r);
        let t1 = t.update(y * 10 + x, spec_b_rng_cell(lfsr_value(r1.index as int)));
        lemma_b_fill_row_len(t1, r1, y, x - 1);
    }
}

/// Drawing the garbage rows preserves the playfield's length and the
/// generator's well-formedness.
pub proof fn lemma_b_init_rows_len(t: Seq<bool>, r: RandomView, y: int)
    requires
        t.len() == 256,
        0 <= y,
    ensures
        spec_b_init_rows(t, r, y).0.len() == 256,
        spec_b_init_rows(t, r, y).1.piece_counter == r.piece_counter,
        spec_b_init_rows(t, r, y).1.last_piece == r.last_piece,
        r.wf() ==> spec_b_init_rows(t, r, y).1.wf(),
    decreases 20 - y,
{
    if y < 20 {
        let r1 = spec_cycle(r);
        let filled = spec_b_fill_row(t, r1, y, 9);
        lemma_b_fill_row_len(t, r1, y, 9);
        let r2 = spec_cycle_search(filled.1, spec_reject_high());
        let hole = lfsr_value(r2.index as int) % 16;
        let t2 = filled.0.update(y * 10 + hole, false);
        lemma_b_init_rows_len(t2, r2, y + 1);
    }
}

/// A freshly constructed gameplay state satisfies the invariant.
pub proof fn lemma_new_game_wf(
    random: RandomView,
    frame_counter: u8,
    previous_input: Input,
    game_type: GameType,
    level: u8,
    b_type_height: u8,
    modifier: Modifier,
)
    requires
        random.wf(),
    ensures
        spec_new_game(
            random,
            frame_counter,
            previous_input,
            game_type,
            level,
            b_type_height,
            modifier,
        ).wf(),
{
    lemma_get_piece_wf(random);
    let d1 = spec_get_piece(random);
    lemma_get_piece_wf(spec_cycle(d1.0));
    let d2 = spec_get_piece(spec_cycle(d1.0));
    if game_type == GameType::B {
        lemma_b_init_rows_len(Seq::new(256, |i: int| false), d2.0, 8);
    }
}

/// Every orientation of a real piece occupies its own pivot cell.
pub proof fn lemma_offsets_contain_pivot(p: Piece)
    requires
        p != Piece::NoPiece,
    ensures
        exists|k: int| 0 <= k < 4 && p.spec_tile_offsets()[k] == (0i8, 0i8),
{
    match p {
        Piece::TUp => assert(p.spec_tile_offsets()[1] == (0i8, 0i8)),
        Piece::TRight => assert(p.spec_tile_offsets()[1] == (0i8, 0i8)),
        Piece::TDown => assert(p.spec_tile_offsets()[1] == (0i8, 0i8)),
        Piece::TLeft => assert(p.spec_tile_offsets()[2] == (0i8, 0i8)),
        Piece::JUp => assert(p.spec_tile_offsets()[1] == (0i8, 0i8)),
        Piece::JRight => assert(p.spec_tile_offsets()[2] == (0i8, 0i8)),
        Piece::JDown => assert(p.spec_tile_offsets()[2] == (0i8, 0i8)),
        Piece::JLeft => assert(p.spec_tile_offsets()[1] == (0i8, 0i8)),
        Piece::ZHorizontal => assert(p.spec_tile_offsets()[1] == (0i8, 0i8)),
        Piece::ZVertical => assert(p.spec_tile_offsets()[1] == (0i8, 0i8)),
        Piece::O => assert(p.spec_tile_offsets()[1] == (0i8, 0i8)),
        Piece::SHorizontal => assert(p.spec_tile_offsets()[0] == (0i8, 0i8)),
        Piece::SVertical => assert(p.spec_tile_offsets()[1] == (0i8, 0i8)),
        Piece::LUp => assert(p.spec_tile_offsets()[1] == (0i8, 0i8)),
        Piece::LRight => assert(p.spec_tile_offsets()[1] == (0i8, 0i8)),
        Piece::LDown => assert(p.spec_tile_offsets()[2] == (0i8, 0i8)),
        Piece::LLeft => assert(p.spec_tile_offsets()[2] == (0i8, 0i8)),
        Piece::IVertical => assert(p.spec_tile_offsets()[2] == (0i8, 0i8)),
        Piece::IHorizontal => assert(p.spec_tile_offsets()[2] == (0i8, 0i8)),
        Piece::NoPiece => assert(false),
    }
}

/// A successful placement puts the pivot inside the visible field.
pub proof fn lemma_try_set_wf(g: GameView, piece: Piece, x: i8, y: i8)
    requires
        g.wf(),
        piece != Piece::NoPiece,
        0 <= y,
    ensures
        spec_try_set(g, piece, x, y).wf(),
{
    if spec_fits(g.tiles, piece, x, y) {
        lemma_offsets_contain_pivot(piece);
        let k = choose|k: int| 0 <= k < 4 && piece.spec_tile_offsets()[k] == (0i8, 0i8);
        assert(spec_offset_ok(g.tiles, piece, x, y, k));
    }
}

/// A piece's rotation is never the sentinel.
pub proof fn lemma_rotation_not_none(p: Piece)
    requires
        p != Piece::NoPiece,
    ensures
        p.spec_clockwise_rotation() != Piece::NoPiece,
        p.spec_counterclockwise_rotation() != Piece::NoPiece,
{
}

/// The shift handler preserves the gameplay invariant.
pub proof fn lemma_try_shift_wf(g: GameView, input: Input)
    requires
        g.wf(),
        g.play_state == PlayState::MoveTetrimino,
    ensures
        spec_try_shift(g, input).wf(),
{
    let pressed = input.spec_difference(g.previous_input);
    if !input.spec_get(DOWN) && (input.spec_get(LEFT) || input.spec_get(RIGHT)) {
        if pressed.spec_get(LEFT) || pressed.spec_get(RIGHT) {
            lemma_try_set_wf(
                GameView { shift_autorepeat: 15u8, ..g },
                g.current_piece,
                if input.spec_get(RIGHT) {
                    i8_specs::wrapping_add(g.current_piece_x, 1)
                } else {
                    i8_specs::wrapping_sub(g.current_piece_x, 1)
                },
                g.current_piece_y,
            );
        } else if g.shift_autorepeat == 0 {
            lemma_try_set_wf(
                GameView { shift_autorepeat: 5u8, ..g },
                g.current_piece,
                if input.spec_get(RIGHT) {
                    i8_specs::wrapping_add(g.current_piece_x, 1)
                } else {
                    i8_specs::wrapping_sub(g.current_piece_x, 1)
                },
                g.current_piece_y,
            );
        }
    }
}

/// The rotation handler preserves the gameplay invariant.
pub proof fn lemma_try_rotate_wf(g: GameView, input: Input)
    requires
        g.wf(),
        g.play_state == PlayState::MoveTetrimino,
    ensures
        spec_try_rotate(g, input).wf(),
{
    let pressed = input.spec_difference(g.previous_input);
    lemma_rotation_not_none(g.current_piece);
    if pressed.spec_get(A_BUTTON) {
        lemma_try_set_wf(
            g,
            g.current_piece.spec_clockwise_rotation(),
            g.current_piece_x,
            g.current_piece_y,
        );
    } else if pressed.spec_get(B_BUTTON) {
        lemma_try_set_wf(
            g,
            g.current_piece.spec_counterclockwise_rotation(),
            g.current_piece_x,
            g.current_piece_y,
        );
    }
}

/// The drop handler preserves the gameplay invariant.
pub proof fn lemma_try_drop_wf(g: GameView, input: Input)
    requires
        g.wf(),
        g.play_state == PlayState::MoveTetrimino,
    ensures
        spec_try_drop(g, input).wf(),
{
    let counted = spec_drop_counters(g, input);
    let g1 = counted.0;
    assert(g1.wf());
    if !counted.1 && (counted.2 || g1.fall_timer >= spec_level_delay(g1.level)) {
        let g2 = GameView { fall_timer: 0u8, ..g1 };
        let new_y = i8_specs::wrapping_add(g2.current_piece_y, 1);
        lemma_try_set_wf(g2, g2.current_piece, g2.current_piece_x, new_y);
    }
}

/// The lock handler preserves the gameplay invariant.
pub proof fn lemma_lock_wf(g: GameView)
    requires
        g.wf(),
        g.play_state == PlayState::LockTetrimino,
    ensures
        spec_lock(g).wf(),
{
    if spec_fits(g.tiles, g.current_piece, g.current_piece_x, g.current_piece_y)
        && g.rendering_delay >= 5 {
        lemma_stamp_len(g.tiles, g.current_piece, g.current_piece_x, g.current_piece_y, 4);
    }
}

/// Stamping preserves the playfield's length.
pub proof fn lemma_stamp_len(t: Seq<bool>, piece: Piece, x: i8, y: i8, n: int)
    requires
        t.len() == 256,
        0 <= n <= 4,
    ensures
        spec_stamp(t, piece, x, y, n).len() == 256,
    decreases n,
{
    if n > 0 {
        lemma_stamp_len(t, piece, x, y, n - 1);
    }
}

/// The row scan preserves the gameplay invariant.
pub proof fn lemma_check_row_wf(g: GameView)
    requires
        g.wf(),
        g.play_state == PlayState::CheckForCompletedRows,
    ensures
        spec_check_row(g).wf(),
{
}

/// The statistics update preserves the gameplay invariant.
pub proof fn lemma_update_stats_wf(g: GameView)
    requires
        g.wf(),
        g.play_state == PlayState::UpdateLinesAndStatistics,
    ensures
        spec_update_stats(g).wf(),
{
}

/// The spawn handler preserves the gameplay invariant.
pub proof fn lemma_spawn_wf(g: GameView)
    requires
        g.wf(),
        g.play_state == PlayState::SpawnNextTetrimino,
    ensures
        spec_spawn(g).wf(),
{
}

/// The play-phase dispatch preserves the gameplay invariant.
pub proof fn lemma_run_play_state_wf(g: GameView, input: Input)
    requires
        g.wf(),
    ensures
        spec_run_play_state(g, input).wf(),
{
    match g.play_state {
        PlayState::MoveTetrimino => {
            lemma_try_shift_wf(g, input);
            lemma_try_rotate_wf(spec_try_shift(g, input), input);
            lemma_try_drop_wf(spec_try_rotate(spec_try_shift(g, input), input), input);
        },
        PlayState::LockTetrimino => lemma_lock_wf(g),
        PlayState::CheckForCompletedRows => lemma_check_row_wf(g),
        PlayState::DoNothing => {},
        PlayState::UpdateLinesAndStatistics => lemma_update_stats_wf(g),
        PlayState::SpawnNextTetrimino => lemma_spawn_wf(g),
    }
}

/// The game-mode dispatch preserves the gameplay invariant.
pub proof fn lemma_step_main_wf(g: GameView, input: Input)
    requires
        g.wf(),
    ensures
        spec_step_main(g, input).wf(),
{
    if g.game_mode_state == GameModeState::HandleGameplay {
        let ga = GameView { fall_timer: u8_specs::wrapping_add(g.fall_timer, 1), ..g };
        if ga.play_state_delay == 0 {
            lemma_run_play_state_wf(ga, input);
        }
    }
}

/// One frame preserves the gameplay invariant: in particular, under the
/// capped configuration the score stays below its bound forever.
pub proof fn lemma_step_wf(g: GameView, input: Input)
    requires
        g.wf(),
    ensures
        spec_step(g, input).wf(),
{
    if !g.dead {
        let gb = spec_step_pre(g, input);
        assert(gb.wf());
        if !gb.paused {
            lemma_step_main_wf(gb, input);
        }
    }
}

/// Line-clear law: when the staggered scan consumes a fully occupied
/// interior row, every previously-set cell of the rows above it moves
/// down by exactly one row, the rows below it are untouched, and the
/// top row comes out all-clear.
pub proof fn lemma_check_row_clears(g: GameView)
    requires
        g.wf(),
        g.play_state == PlayState::CheckForCompletedRows,
        g.rendering_delay >= 5,
        1 <= spec_checked_row(g),
        spec_row_full(g.tiles, spec_checked_row(g)),
    ensures
        spec_check_row(g).tiles == spec_shifted_down(g.tiles, spec_checked_row(g) * 10),
        forall|r: int, c: int|
            1 <= r <= spec_checked_row(g) && 0 <= c < 10 ==> #[trigger] spec_cell(
                spec_check_row(g).tiles,
                r,
                c,
            ) == spec_cell(g.tiles, r - 1, c),
        forall|c: int| 0 <= c < 10 ==> !#[trigger] spec_cell(spec_check_row(g).tiles, 0, c),
        forall|i: int|
            spec_checked_row(g) * 10 + 10 <= i < 256 ==> spec_check_row(g).tiles[i] == g.tiles[i],
{
    lemma_row_clear_shifts_down(g.tiles, spec_checked_row(g));
}

/// Determinism: stepping equal states with the same input yields equal
/// states. Together with `step`'s contract — the successor state equals
/// `spec_step` of the old one — this makes every replay of a fixed
/// input sequence from a fixed initial state bit-identical.
pub proof fn lemma_step_deterministic(g1: GameView, g2: GameView, input: Input)
    requires
        g1 == g2,
    ensures
        spec_step(g1, input) == spec_step(g2, input),
{
}

/// Terminal monotonicity: once `dead` is true, a step changes nothing,
/// so every later state equals the dead one.
pub proof fn lemma_dead_is_terminal(g: GameView, input: Input)
    requires
        g.dead,
    ensures
        spec_step(g, input) == g,
{
}

/// Score bound: under the capped configuration no input sequence can
/// push the score past 999999, because the bound is part of the
/// invariant every frame preserves.
pub proof fn lemma_score_bounded(g: GameView, input: Input)
    requires
        g.wf(),
        g.modifier.cap_score_at_999999,
    ensures
        spec_step(g, input).wf(),
        spec_step(g, input).score <= 999999,
{
    lemma_step_wf(g, input);
}


/// A de facto gameplay state: a state of the game where the playfield
/// is present. One [`step`](GameplayState::step) call advances it by
/// exactly one frame, and the contract equates the successor with
/// [`spec_step`] of the previous state, so the machine is deterministic
/// by proof.
#[derive(Clone, Debug)]
pub struct GameplayState {
    pub dead: bool,
    pub paused: bool,
    pub game_mode_state: GameModeState,
    pub play_state: PlayState,
    pub checked_row_offset: u8,
    pub update_lines_delay: u8,
    pub previous_input: Input,
    pub random: Random,
    pub frame_counter: u8,
    pub rendering_delay: u8,
    pub cleared_lines: u8,
    pub current_piece_x: i8,
    pub current_piece_y: i8,
    pub hold_down_points: u8,
    pub fall_timer: u8,
    pub drop_autorepeat: i8,
    pub shift_autorepeat: u8,
    pub game_type: GameType,
    pub tiles: Playfield,
    pub current_piece: Piece,
    pub next_piece: Piece,
    pub score: u32,
    pub level: u8,
    pub line_count: u16,
    pub play_state_delay: u8,
    pub modifier: Modifier,
}

impl View for GameplayState {
    type V = GameView;

    open spec fn view(&self) -> GameView {
        GameView {
            dead: self.dead,
            paused: self.paused,
            game_mode_state: self.game_mode_state,
            play_state: self.play_state,
            checked_row_offset: self.checked_row_offset,
            update_lines_delay: self.update_lines_delay,
            previous_input: self.previous_input,
            random: self.random@,
            frame_counter: self.frame_counter,
            rendering_delay: self.rendering_delay,
            cleared_lines: self.cleared_lines,
            current_piece_x: self.current_piece_x,
            current_piece_y: self.current_piece_y,
            hold_down_points: self.hold_down_points,
            fall_timer: self.fall_timer,
            drop_autorepeat: self.drop_autorepeat,
            shift_autorepeat: self.shift_autorepeat,
            game_type: self.game_type,
            tiles: self.tiles@,
            current_piece: self.current_piece,
            next_piece: self.next_piece,
            score: self.score,
            level: self.level,
            line_count: self.line_count,
            play_state_delay: self.play_state_delay,
            modifier: self.modifier,
        }
    }
}

impl GameplayState {
    /// Well-formed machines pair the state invariant with a correct
    /// generator table and a full playfield page.
    pub open spec fn wf(self) -> bool {
        &&& self@.wf()
        &&& self.random.wf()
        &&& self.tiles.wf()
    }

    /// Creates a gameplay state with the unmodified configuration.
    ///
    /// Equivalent to [`Self::new_with_modifier`] with
    /// [`Modifier::empty`].
    pub fn new(
        random: &Random,
        frame_counter: u8,
        previous_input: Input,
        game_type: GameType,
        level: u8,
        b_type_height: u8,
    ) -> (r: Self)
        requires
            random.wf(),
            b_type_height < 6,
        ensures
            r.wf(),
            r@ == spec_new_game(
                random@,
                frame_counter,
                previous_input,
                game_type,
                level,
                b_type_height,
                Modifier::spec_empty(),
            ),
    {
        Self::new_with_modifier(
            random,
            frame_counter,
            previous_input,
            game_type,
            level,
            b_type_height,
            Modifier::empty(),
        )
    }

    /// Creates a gameplay state from the menu machine's handoff: a
    /// snapshot of the generator, the frame counter phase, the previous
    /// input snapshot, the selected game type and level, the type-B
    /// height selection, and the configuration to play under.
    pub fn new_with_modifier(
        random: &Random,
        frame_counter: u8,
        previous_input: Input,
        game_type: GameType,
        level: u8,
        b_type_height: u8,
        modifier: Modifier,
    ) -> (r: Self)
        requires
            random.wf(),
            b_type_height < 6,
        ensures
            r.wf(),
            r@ == spec_new_game(
                random@,
                frame_counter,
                previous_input,
                game_type,
                level,
                b_type_height,
                modifier,
            ),
    {
        proof {
            lemma_new_game_wf(
                random@,
                frame_counter,
                previous_input,
                game_type,
                level,
                b_type_height,
                modifier,
            );
        }
        let mut state = Self {
            dead: false,
            previous_input,
            score: 0,
            random: random.duplicate(),
            current_piece_x: 5,
            current_piece_y: 0,
            fall_timer: 0,
            game_mode_state: GameModeState::HandleGameplay,
            drop_autorepeat: -96,
            current_piece: Piece::NoPiece,
            next_piece: Piece::NoPiece,
            rendering_delay: 0,
            line_count: match game_type {
                GameType::A => 0,
                GameType::B => 25,
            },
            play_state: PlayState::MoveTetrimino,
            shift_autorepeat: 15,
            tiles: Playfield::new(),
            level,
            hold_down_points: 0,
            checked_row_offset: 0,
            cleared_lines: 0,
            game_type,
            update_lines_delay: 0,
            frame_counter,
            paused: false,
            play_state_delay: 0,
            modifier,
        };
        proof {
            assert(state@.tiles =~= Seq::new(256, |i: int| false));
        }

        state.current_piece = state.random.get_piece();
        state.random.cycle();
        state.next_piece = state.random.get_piece();

        if game_type == GameType::B {
            state.initialize_type_b_tiles(b_type_height);
        }

        state
    }

    /// Pre-populates a type-B playfield with twelve random garbage
    /// rows, one guaranteed hole per row, and the height-selected
    /// prefix cleared; see [`spec_init_b_tiles`].
    fn initialize_type_b_tiles(&mut self, height_index: u8)
        requires
            old(self).random.wf(),
            old(self).tiles.wf(),
            height_index < 6,
        ensures
            final(self)@ == spec_init_b_tiles(old(self)@, height_index),
            final(self).random.wf(),
            final(self).tiles.wf(),
    {
        let ghost t0 = self@.tiles;
        let ghost r0 = self@.random;
        let mut y: usize = 8;
        while y < 20
            invariant
                8 <= y <= 20,
                self.random.wf(),
                self.tiles.wf(),
                t0.len() == 256,
                spec_b_init_rows(t0, r0, 8) == spec_b_init_rows(self@.tiles, self@.random, y as int),
                self@ == (GameView { tiles: self@.tiles, random: self@.random, ..old(self)@ }),
            decreases 20 - y,
        {
            let ghost t_row = self@.tiles;
            self.random.cycle();
            let ghost r1 = self@.random;

            // place tiles randomly, right to left
            let mut xi: usize = 0;
            while xi < 10
                invariant
                    xi <= 10,
                    8 <= y < 20,
                    self.random.wf(),
                    self.tiles.wf(),
                    spec_b_fill_row(t_row, r1, y as int, 9) == spec_b_fill_row(
                        self@.tiles,
                        self@.random,
                        y as int,
                        9 - xi,
                    ),
                    self@ == (GameView { tiles: self@.tiles, random: self@.random, ..old(self)@ }),
                decreases 10 - xi,
            {
                let x: usize = 9 - xi;
                self.random.cycle();
                let v = self.random.get_value();
                self.set_tile(x, y, b_rng_cell(v));
                xi += 1;
            }

            // guarantee a hole in the row
            self.random.cycle_past_high_nibbles();
            let hole: usize = (self.random.get_value() % 16) as usize;
            self.set_tile(hole, y, false);

            y += 1;
        }

        // behavior from the original game: one additional cell (the
        // leftmost of the highest garbage row) is also cleared
        let tiles_to_clear: usize = b_height(height_index) as usize * 10 + 1;
        self.tiles.clear_prefix(tiles_to_clear);
    }

    /// Reads one playfield cell under the `row * 10 + col` addressing.
    pub fn get_tile(&self, x: usize, y: usize) -> (b: bool)
        requires
            self.tiles.wf(),
            y * 10 + x < 256,
        ensures
            b == self@.tiles[y * 10 + x],
    {
        self.tiles.get(y * 10 + x)
    }

    /// Writes one playfield cell under the `row * 10 + col` addressing.
    fn set_tile(&mut self, x: usize, y: usize, tile: bool)
        requires
            old(self).tiles.wf(),
            y * 10 + x < 256,
        ensures
            final(self)@ == (GameView {
                tiles: old(self)@.tiles.update((y * 10 + x) as int, tile),
                ..old(self)@
            }),
            final(self).random == old(self).random,
            final(self).tiles.wf(),
    {
        self.tiles.set(y * 10 + x, tile);
    }

    /// The frames an automatic drop waits for at the current level.
    fn get_automatic_drop_delay(&self) -> (r: u8)
        ensures
            r == spec_level_delay(self.level),
    {
        let level = self.level;
        if level >= 29 {
            1
        } else if level >= 19 {
            2
        } else if level >= 16 {
            3
        } else if level >= 13 {
            4
        } else if level >= 10 {
            5
        } else if level == 9 {
            6
        } else if level == 8 {
            8
        } else if level == 7 {
            13
        } else if level == 6 {
            18
        } else if level == 5 {
            23
        } else if level == 4 {
            28
        } else if level == 3 {
            33
        } else if level == 2 {
            38
        } else if level == 1 {
            43
        } else {
            48
        }
    }

    /// Attempts to place `piece` with its pivot at `(x, y)`: commits
    /// piece and pivot when all four cells are free and in range,
    /// changes nothing otherwise.
    fn try_set_piece_and_position(&mut self, piece: Piece, x: i8, y: i8) -> (ok: bool)
        requires
            old(self).tiles.wf(),
            piece != Piece::NoPiece,
            -4 <= x <= 12,
            0 <= y <= 21,
        ensures
            ok == spec_fits(old(self)@.tiles, piece, x, y),
            final(self)@ == spec_try_set(old(self)@, piece, x, y),
            final(self).random == old(self).random,
            final(self).tiles == old(self).tiles,
    {
        let mut k: usize = 0;
        while k < 4
            invariant
                old(self).tiles.wf(),
                piece != Piece::NoPiece,
                -4 <= x <= 12,
                0 <= y <= 21,
                k <= 4,
                self == old(self),
                forall|j: int| 0 <= j < k ==> spec_offset_ok(old(self)@.tiles, piece, x, y, j),
            decreases 4 - k,
        {
            let off = piece.tile_offset(k);
            let sx: i8 = x + off.0;
            let sy: i8 = y + off.1;
            if !(0 <= sx && sx < 10) || !(sy < 20) {
                proof {
                    assert(!spec_offset_ok(old(self)@.tiles, piece, x, y, k as int));
                }
                return false;
            }
            let tx: usize;
            let ty: usize;
            if sy >= 0 {
                tx = sx as usize;
                ty = sy as usize;
            } else {
                let mut fx: usize = sx as usize + 6;
                let mut fy: usize = (sy + 25) as usize;
                if fx >= 10 {
                    fx -= 10;
                    fy += 1;
                }
                tx = fx;
                ty = fy;
            }
            proof {
                assert(ty * 10 + tx == spec_tile_index(sx as int, sy as int));
            }
            if self.tiles.get(ty * 10 + tx) {
                proof {
                    assert(!spec_offset_ok(old(self)@.tiles, piece, x, y, k as int));
                }
                return false;
            }
            k += 1;
        }
        self.current_piece = piece;
        self.current_piece_x = x;
        self.current_piece_y = y;
        true
    }

    /// Clamps the rendering delay by the highest playfield row the
    /// stopping piece may touch.
    fn update_rendered_row_counter(&mut self)
        requires
            old(self)@.rendering_delay <= 5,
            old(self)@.current_piece_y >= 0,
        ensures
            final(self)@ == spec_update_rendered(old(self)@),
            final(self).random == old(self).random,
            final(self).tiles == old(self).tiles,
    {
        let highest: u8 = if self.current_piece_y >= 2 {
            (self.current_piece_y - 2) as u8
        } else {
            0
        };
        let prod: u8 = self.rendering_delay * 4;
        let m: u8 = if prod < highest {
            prod
        } else {
            highest
        };
        self.rendering_delay = m / 4;
    }

    /// The shift handler of one frame; see [`spec_try_shift`].
    #[verifier::rlimit(100)]
    fn try_shift_piece(&mut self, input: Input)
        requires
            old(self).wf(),
            old(self)@.play_state == PlayState::MoveTetrimino,
        ensures
            final(self).wf(),
            final(self)@ == spec_try_shift(old(self)@, input),
            final(self).random == old(self).random,
    {
        proof {
            lemma_try_shift_wf(old(self)@, input);
        }
        if input.get(DOWN) {
            return;
        }
        if !input.get(LEFT) && !input.get(RIGHT) {
            return;
        }

        let pressed = input.difference(self.previous_input);
        if pressed.get(LEFT) || pressed.get(RIGHT) {
            self.shift_autorepeat = 15;
        } else if self.shift_autorepeat == 0 {
            self.shift_autorepeat = 5;
        } else {
            self.shift_autorepeat -= 1;
            return;
        }

        let new_piece_x: i8 = if input.get(RIGHT) {
            self.current_piece_x.wrapping_add(1)
        } else {
            self.current_piece_x.wrapping_sub(1)
        };

        if !self.try_set_piece_and_position(self.current_piece, new_piece_x, self.current_piece_y)
        {
            self.shift_autorepeat = 0;
        }
    }

    /// The rotation handler of one frame; see [`spec_try_rotate`].
    fn try_rotate_piece(&mut self, input: Input)
        requires
            old(self).wf(),
            old(self)@.play_state == PlayState::MoveTetrimino,
        ensures
            final(self).wf(),
            final(self)@ == spec_try_rotate(old(self)@, input),
            final(self).random == old(self).random,
    {
        proof {
            lemma_try_rotate_wf(old(self)@, input);
            lemma_rotation_not_none(old(self)@.current_piece);
        }
        let pressed = input.difference(self.previous_input);
        let new_piece_rotation = if pressed.get(A_BUTTON) {
            self.current_piece.get_clockwise_rotation()
        } else if pressed.get(B_BUTTON) {
            self.current_piece.get_counterclockwise_rotation()
        } else {
            return;
        };

        self.try_set_piece_and_position(
            new_piece_rotation,
            self.current_piece_x,
            self.current_piece_y,
        );
    }

    /// The counter half of the drop handler; see
    /// [`spec_drop_counters`].
    fn drop_counters(&mut self, input: Input) -> (r: (bool, bool))
        requires
            old(self).wf(),
        ensures
            final(self)@ == spec_drop_counters(old(self)@, input).0,
            r.0 == spec_drop_counters(old(self)@, input).1,
            r.1 == spec_drop_counters(old(self)@, input).2,
            final(self).random == old(self).random,
            final(self).tiles == old(self).tiles,
    {
        let pressed = input.difference(self.previous_input);

        if self.drop_autorepeat < 0 {
            if pressed.get(DOWN) {
                self.drop_autorepeat = 0;
            } else {
                self.drop_autorepeat = self.drop_autorepeat.wrapping_add(1);
                return (true, false);
            }
        }

        let mut manual = false;

        if self.drop_autorepeat == 0 {
            if pressed.get(DOWN) && !input.get(LEFT) && !input.get(RIGHT) && !pressed.get(UP) {
                self.drop_autorepeat = 1;
            }
        } else {
            if input.get(DOWN) && !input.get(LEFT) && !input.get(RIGHT) && !input.get(UP) {
                self.drop_autorepeat = self.drop_autorepeat.wrapping_add(1);
                if self.drop_autorepeat >= 3 {
                    self.drop_autorepeat = 1;
                    self.hold_down_points = self.hold_down_points.wrapping_add(1);
                    manual = true;
                }
            } else {
                self.drop_autorepeat = 0;
                self.hold_down_points = 0;
            }
        }

        (false, manual)
    }

    /// The drop handler of one frame; see [`spec_try_drop`].
    fn try_drop_piece(&mut self, input: Input)
        requires
            old(self).wf(),
            old(self)@.play_state == PlayState::MoveTetrimino,
        ensures
            final(self).wf(),
            final(self)@ == spec_try_drop(old(self)@, input),
            final(self).random == old(self).random,
    {
        proof {
            lemma_try_drop_wf(old(self)@, input);
        }
        let counted = self.drop_counters(input);
        if counted.0 {
            return;
        }

        let mut drop = counted.1;

        if !drop && self.fall_timer >= self.get_automatic_drop_delay() {
            drop = true;
        }

        if drop {
            self.fall_timer = 0;
            let new_y: i8 = self.current_piece_y.wrapping_add(1);
            if !self.try_set_piece_and_position(self.current_piece, self.current_piece_x, new_y) {
                self.play_state = PlayState::LockTetrimino;
                self.update_rendered_row_counter();
            }
        }
    }

    /// The lock handler; see [`spec_lock`].
    fn lock_tetrimino(&mut self)
        requires
            old(self).wf(),
            old(self)@.play_state == PlayState::LockTetrimino,
        ensures
            final(self).wf(),
            final(self)@ == spec_lock(old(self)@),
            final(self).random == old(self).random,
    {
        proof {
            lemma_lock_wf(old(self)@);
        }
        if !self.try_set_piece_and_position(
            self.current_piece,
            self.current_piece_x,
            self.current_piece_y,
        ) {
            self.dead = true;
            return;
        }

        if self.rendering_delay >= 5 {
            let ghost t0 = self@.tiles;
            let piece = self.current_piece;
            let x = self.current_piece_x;
            let y = self.current_piece_y;
            let mut k: usize = 0;
            while k < 4
                invariant
                    k <= 4,
                    self.tiles.wf(),
                    piece != Piece::NoPiece,
                    0 <= x <= 9,
                    0 <= y <= 19,
                    t0.len() == 256,
                    self@ == (GameView {
                        tiles: spec_stamp(t0, piece, x, y, k as int),
                        ..old(self)@
                    }),
                    self.random == old(self).random,
                decreases 4 - k,
            {
                proof {
                    lemma_stamp_len(t0, piece, x, y, k as int);
                }
                let off = piece.tile_offset(k);
                let sx: i16 = x as i16 + off.0 as i16;
                let sy: i16 = y as i16 + off.1 as i16;
                let idx: u8 = #[verifier::truncate] ((sy * 10 + sx) as u8);
                proof {
                    assert(idx as int == 10 * (idx as int / 10) + idx as int % 10) by (nonlinear_arith);
                }
                self.set_tile((idx % 10) as usize, (idx / 10) as usize, true);
                k += 1;
            }
            self.checked_row_offset = 0;
            self.update_rendered_row_counter();
            self.play_state = PlayState::CheckForCompletedRows;
        }
    }

    /// One frame of the staggered row scan; see [`spec_check_row`].
    fn check_if_row_completed(&mut self)
        requires
            old(self).wf(),
            old(self)@.play_state == PlayState::CheckForCompletedRows,
        ensures
            final(self).wf(),
            final(self)@ == spec_check_row(old(self)@),
            final(self).random == old(self).random,
    {
        proof {
            lemma_check_row_wf(old(self)@);
        }
        if self.rendering_delay < 5 {
            return;
        }

        let base: u8 = if self.current_piece_y < 2 {
            0
        } else {
            (self.current_piece_y - 2) as u8
        };
        let checked_row: u8 = base + self.checked_row_offset;

        if self.tiles.row_full(checked_row as usize) {
            let moved: usize = if checked_row > 0 {
                checked_row as usize * 10
            } else {
                246
            };
            self.tiles.shift_down(moved);
            self.cleared_lines += 1;
        }

        self.checked_row_offset += 1;
        if self.checked_row_offset == 4 {
            self.rendering_delay = 0;
            self.update_lines_delay = 5;
            self.play_state = PlayState::DoNothing;
            if self.cleared_lines == 0 {
                self.play_state = PlayState::UpdateLinesAndStatistics;
            }
        }
    }

    /// The statistics update of a finished lock; see
    /// [`spec_update_stats`].
    fn update_score_and_line_count(&mut self)
        requires
            old(self).wf(),
            old(self)@.play_state == PlayState::UpdateLinesAndStatistics,
        ensures
            final(self).wf(),
            final(self)@ == spec_update_stats(old(self)@),
            final(self).random == old(self).random,
    {
        proof {
            lemma_update_stats_wf(old(self)@);
        }
        match self.game_type {
            GameType::A => {
                let mut i: u8 = 0;
                while i < self.cleared_lines
                    invariant
                        i <= self.cleared_lines,
                        self@ == (GameView {
                            line_count: spec_inc_lines(
                                old(self)@.line_count,
                                old(self)@.level,
                                i as int,
                            ).0,
                            level: spec_inc_lines(
                                old(self)@.line_count,
                                old(self)@.level,
                                i as int,
                            ).1,
                            ..old(self)@
                        }),
                        self.random == old(self).random,
                        self.tiles == old(self).tiles,
                    decreases self.cleared_lines - i,
                {
                    self.line_count = self.line_count.wrapping_add(1) % 10000;
                    if self.line_count % 10 == 0 {
                        let lines_middle_digits: u8 = ((self.line_count / 10) % 100) as u8;
                        let target_level: u8 = lines_middle_digits + 6 * (lines_middle_digits
                            / 10);
                        if self.level < target_level {
                            self.level += 1;
                        }
                    }
                    i += 1;
                }
            },
            GameType::B => {
                self.line_count = if self.line_count > self.cleared_lines as u16 {
                    self.line_count - self.cleared_lines as u16
                } else {
                    0
                };
            },
        }

        if self.hold_down_points >= 2 {
            let low_digits: u8 = from_bcd(
                to_bcd((self.score % 100) as u8).wrapping_add(self.hold_down_points).wrapping_sub(
                    1,
                ),
            );
            self.score = self.score / 100 * 100;
            self.score = self.score.wrapping_add(low_digits as u32);
            if low_digits >= 100 {
                self.score = self.score / 10 * 10;
            }
        }
        self.hold_down_points = 0;

        let points: u16 = line_points(self.cleared_lines);
        let multiplier: u8 = self.level.wrapping_add(1);
        proof {
            assert(points as u32 * (multiplier as u32) <= 1200 * 255) by (nonlinear_arith)
                requires
                    points <= 1200,
                    multiplier <= 255,
            ;
        }
        self.score = self.score.wrapping_add(points as u32 * (multiplier as u32));

        if self.modifier.cap_score_at_999999 && self.score > 999999 {
            self.score = 999999;
        }

        self.cleared_lines = 0;

        self.play_state = PlayState::SpawnNextTetrimino;
        self.play_state_delay = 2;
    }

    /// The spawn handler; see [`spec_spawn`].
    fn spawn_next_piece(&mut self)
        requires
            old(self).wf(),
            old(self)@.play_state == PlayState::SpawnNextTetrimino,
        ensures
            final(self).wf(),
            final(self)@ == spec_spawn(old(self)@),
    {
        proof {
            lemma_spawn_wf(old(self)@);
        }
        if self.rendering_delay < 5 {
            return;
        }
        self.fall_timer = 0;
        self.current_piece_y = 0;
        self.play_state = PlayState::MoveTetrimino;
        self.current_piece_x = 5;
        self.current_piece = self.next_piece;
        self.next_piece = self.random.get_piece();
        self.drop_autorepeat = 0;
    }

    /// The play-phase dispatch of one frame; see
    /// [`spec_run_play_state`].
    fn run_play_state_operation(&mut self, input: Input)
        requires
            old(self).wf(),
        ensures
            final(self).wf(),
            final(self)@ == spec_run_play_state(old(self)@, input),
    {
        match self.play_state {
            PlayState::MoveTetrimino => {
                self.try_shift_piece(input);
                proof {
                    lemma_try_shift_wf(old(self)@, input);
                }
                self.try_rotate_piece(input);
                proof {
                    lemma_try_rotate_wf(spec_try_shift(old(self)@, input), input);
                }
                self.try_drop_piece(input);
            },
            PlayState::LockTetrimino => self.lock_tetrimino(),
            PlayState::CheckForCompletedRows => self.check_if_row_completed(),
            PlayState::DoNothing => (),
            PlayState::UpdateLinesAndStatistics => self.update_score_and_line_count(),
            PlayState::SpawnNextTetrimino => self.spawn_next_piece(),
        }
    }

    /// The game-mode dispatch of one frame; see [`spec_step_main`].
    fn step_main_logic(&mut self, input: Input)
        requires
            old(self).wf(),
        ensures
            final(self).wf(),
            final(self)@ == spec_step_main(old(self)@, input),
    {
        proof {
            lemma_step_main_wf(old(self)@, input);
        }
        if self.game_mode_state == GameModeState::HandleGameplay {
            self.fall_timer = self.fall_timer.wrapping_add(1);
            if self.play_state_delay > 0 {
                self.play_state_delay -= 1;
            } else {
                self.run_play_state_operation(input);
            }
            self.game_mode_state = GameModeState::HandleStartButton;

            if self.dead || input == Input::from_bits(RIGHT | LEFT | DOWN) {
                // quirk from the original game: holding Right, Left and
                // Down at once truncates the frame here
                return;
            }
        }

        if self.game_mode_state == GameModeState::HandleStartButton && input.difference(
            self.previous_input,
        ).get(START) {
            self.paused = true;
        }

        self.game_mode_state = GameModeState::HandleGameplay;
    }

    /// The unconditional head of a live frame; see [`spec_step_pre`].
    fn step_pre(&mut self, input: Input)
        requires
            old(self).wf(),
            !old(self)@.dead,
        ensures
            final(self)@ == spec_step_pre(old(self)@, input),
            final(self).random.wf(),
            final(self).tiles == old(self).tiles,
    {
        self.frame_counter = self.frame_counter.wrapping_add(1) % 4;
        self.random.cycle();

        if self.paused {
            if input.difference(self.previous_input) == Input::from_bits(START) {
                // unpause
                self.rendering_delay = 0;
                self.game_mode_state = GameModeState::Unpause;
                self.paused = false;
            }
        } else if self.play_state == PlayState::DoNothing {
            if self.frame_counter == 1 {
                self.update_lines_delay = self.update_lines_delay.wrapping_sub(1);
                if self.update_lines_delay == 0 {
                    self.play_state = PlayState::UpdateLinesAndStatistics;
                }
            }
        } else if self.rendering_delay < 5 {
            self.rendering_delay += 1;
        }
    }

    /// Steps to the next state: one call is one simulated frame. A dead
    /// machine never changes again.
    pub fn step(&mut self, input: Input)
        requires
            old(self).wf(),
        ensures
            final(self).wf(),
            final(self)@ == spec_step(old(self)@, input),
    {
        proof {
            lemma_step_wf(old(self)@, input);
        }
        if self.dead {
            return;
        }

        self.step_pre(input);

        if !self.paused {
            self.step_main_logic(input);
        }

        self.previous_input = input;
    }
}

/// Binary-coded-decimal encoding of a two-digit value.
fn to_bcd(number: u8) -> (r: u8)
    requires
        number < 100,
    ensures
        r == spec_to_bcd(number),
{
    number + 6 * (number / 10)
}

/// Decimal value of a byte read as two packed BCD digits.
fn from_bcd(number: u8) -> (r: u8)
    ensures
        r == spec_from_bcd(number),
{
    (number / 16) * 10 + (number % 16)
}

/// The base points one lock awards for clearing 0 to 4 rows.
fn line_points(cleared: u8) -> (r: u16)
    requires
        cleared <= 4,
    ensures
        r == spec_line_points(cleared),
{
    if cleared == 0 {
        0
    } else if cleared == 1 {
        40
    } else if cleared == 2 {
        100
    } else if cleared == 3 {
        300
    } else {
        1200
    }
}


/// The cell a type-B garbage draw fills, from the byte's low 3 bits.
fn b_rng_cell(v: u8) -> (b: bool)
    ensures
        b == spec_b_rng_cell(v),
{
    let i = v % 8;
    i == 1 || i == 3 || i == 4 || i == 5
}

/// The number of rows a type-B height selection leaves standing.
fn b_height(height_index: u8) -> (r: u8)
    requires
        height_index < 6,
    ensures
        r == spec_b_height(height_index),
{
    if height_index == 0 {
        20
    } else if height_index == 1 {
        17
    } else if height_index == 2 {
        15
    } else if height_index == 3 {
        12
    } else if height_index == 4 {
        10
    } else {
        8
    }
}

} // verus!
