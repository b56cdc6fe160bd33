use meta_nestris::piece::Piece;
use meta_nestris::random::Random;

#[test]
fn new_generator_starts_at_phase_zero() {
    let r = Random::new();
    assert_eq!(r.index, 0);
    assert_eq!(r.piece_counter, 0);
    assert_eq!(r.last_piece, Piece::TUp);
    // high byte of the register seed 0x8988
    assert_eq!(r.get_value(), 0x89);
}

#[test]
fn first_table_entries_match_the_shift_register() {
    let mut r = Random::new();
    let expected: [u8; 6] = [0x89, 68, 34, 17, 8, 4];
    for (i, &value) in expected.iter().enumerate() {
        r.index = i as u16;
        assert_eq!(r.get_value(), value, "value at index {}", i);
    }
}

#[test]
fn cycle_wraps_at_the_period() {
    let mut r = Random::new();
    r.cycle();
    assert_eq!(r.index, 1);
    r.index = 32766;
    r.cycle();
    assert_eq!(r.index, 0);
}

#[test]
fn cycle_multiple_advances_by_count() {
    let mut r = Random::new();
    r.cycle_multiple(263);
    assert_eq!(r.index, 263);
    r.cycle_multiple(32767);
    assert_eq!(r.index, 263);
}

#[test]
fn first_draws_from_power_on() {
    let mut r = Random::new();
    assert_eq!(r.get_piece(), Piece::ZHorizontal);
    assert_eq!(r.index, 0);
    assert_eq!(r.piece_counter, 1);
    r.cycle();
    assert_eq!(r.get_piece(), Piece::IHorizontal);
    assert_eq!(r.index, 1);
    assert_eq!(r.piece_counter, 2);
}

#[test]
fn cycle_do_while_stops_at_first_accepted_byte() {
    let mut r = Random::new();
    // from index 0, the byte at index 1 is 68, whose low nibble is 4
    r.cycle_do_while(|v| v % 16 >= 10);
    assert_eq!(r.index, 1);
    assert!(r.get_value() % 16 < 10);
}

/// Exhaustive draw simulation over all 32767 index phases, all 8 draw
/// counter values and all 7 previous pieces: a draw that accepts its
/// first candidate never repeats the previous piece, and any repeat
/// that does occur came through the re-draw formula (the generator
/// cycled once more), a faithful quirk of the original chooser.
#[test]
fn exhaustive_draw_simulation_over_all_phases() {
    let piece_table = [
        Piece::TDown,
        Piece::JLeft,
        Piece::ZHorizontal,
        Piece::O,
        Piece::SHorizontal,
        Piece::LRight,
        Piece::IHorizontal,
    ];
    let mut r = Random::new();
    let mut repeats: u64 = 0;
    for index in 0..32767u16 {
        r.index = index;
        let value = r.get_value();
        for counter in 0..8u8 {
            for &last in piece_table.iter() {
                r.index = index;
                r.piece_counter = counter;
                r.last_piece = last;
                let candidate = (value.wrapping_add((counter + 1) % 8)) % 8;
                let accepted = candidate < 7 && piece_table[candidate as usize] != last;
                let piece = r.get_piece();
                if accepted {
                    assert_eq!(r.index, index);
                    assert_ne!(piece, last, "first-path repeat at phase {}", index);
                } else {
                    assert_eq!(r.index, (index + 1) % 32767);
                    if piece == last {
                        repeats += 1;
                    }
                }
            }
        }
    }
    // the re-draw can repeat; it did for some phase in the full sweep
    assert!(repeats > 0);
}

/// A concrete re-draw repeat: at phase 1 with draw counter 1 and a
/// just-dealt I piece, the chooser rejects its first candidate and the
/// re-draw formula deals the I piece again.
#[test]
fn redraw_can_repeat_the_previous_piece() {
    let mut r = Random::new();
    r.index = 1;
    r.piece_counter = 1;
    r.last_piece = Piece::IHorizontal;
    assert_eq!(r.get_piece(), Piece::IHorizontal);
    assert_eq!(r.index, 2);
}
