use meta_nestris::input::{A_BUTTON, B_BUTTON, DOWN, Input, LEFT, RIGHT, SELECT, START, UP};
use meta_nestris::piece::Piece;

#[test]
fn t_piece_rotates_in_a_four_cycle() {
    let mut p = Piece::TUp;
    let cycle = [Piece::TRight, Piece::TDown, Piece::TLeft, Piece::TUp];
    for &next in cycle.iter() {
        p = p.get_clockwise_rotation();
        assert_eq!(p, next);
    }
    assert_eq!(Piece::TUp.get_counterclockwise_rotation(), Piece::TLeft);
}

#[test]
fn z_s_i_rotate_in_two_cycles_and_o_is_fixed() {
    assert_eq!(Piece::ZHorizontal.get_clockwise_rotation(), Piece::ZVertical);
    assert_eq!(Piece::ZVertical.get_clockwise_rotation(), Piece::ZHorizontal);
    assert_eq!(Piece::SHorizontal.get_counterclockwise_rotation(), Piece::SVertical);
    assert_eq!(Piece::IHorizontal.get_clockwise_rotation(), Piece::IVertical);
    assert_eq!(Piece::IVertical.get_counterclockwise_rotation(), Piece::IHorizontal);
    assert_eq!(Piece::O.get_clockwise_rotation(), Piece::O);
    assert_eq!(Piece::O.get_counterclockwise_rotation(), Piece::O);
}

#[test]
fn counterclockwise_inverts_clockwise_for_every_piece() {
    let pieces = [
        Piece::TUp,
        Piece::TRight,
        Piece::TDown,
        Piece::TLeft,
        Piece::JUp,
        Piece::JRight,
        Piece::JDown,
        Piece::JLeft,
        Piece::ZHorizontal,
        Piece::ZVertical,
        Piece::O,
        Piece::SHorizontal,
        Piece::SVertical,
        Piece::LUp,
        Piece::LRight,
        Piece::LDown,
        Piece::LLeft,
        Piece::IVertical,
        Piece::IHorizontal,
    ];
    for &p in pieces.iter() {
        assert_eq!(p.get_clockwise_rotation().get_counterclockwise_rotation(), p);
        assert_eq!(p.get_counterclockwise_rotation().get_clockwise_rotation(), p);
    }
}

#[test]
fn tile_offsets_match_the_fixed_geometry() {
    assert_eq!(Piece::TUp.get_tile_offsets(), [(-1, 0), (0, 0), (1, 0), (0, -1)]);
    assert_eq!(Piece::O.get_tile_offsets(), [(-1, 0), (0, 0), (-1, 1), (0, 1)]);
    assert_eq!(Piece::IHorizontal.get_tile_offsets(), [(-2, 0), (-1, 0), (0, 0), (1, 0)]);
    assert_eq!(Piece::IVertical.get_tile_offsets(), [(0, -2), (0, -1), (0, 0), (0, 1)]);
}

#[test]
fn every_piece_occupies_its_pivot() {
    let pieces = [
        Piece::TUp,
        Piece::TRight,
        Piece::TDown,
        Piece::TLeft,
        Piece::JUp,
        Piece::JRight,
        Piece::JDown,
        Piece::JLeft,
        Piece::ZHorizontal,
        Piece::ZVertical,
        Piece::O,
        Piece::SHorizontal,
        Piece::SVertical,
        Piece::LUp,
        Piece::LRight,
        Piece::LDown,
        Piece::LLeft,
        Piece::IVertical,
        Piece::IHorizontal,
    ];
    for &p in pieces.iter() {
        assert!(p.get_tile_offsets().contains(&(0, 0)), "{:?}", p);
    }
}

#[test]
fn input_bit_constants_follow_the_controller_layout() {
    assert_eq!(RIGHT, 0x01);
    assert_eq!(LEFT, 0x02);
    assert_eq!(DOWN, 0x04);
    assert_eq!(UP, 0x08);
    assert_eq!(START, 0x10);
    assert_eq!(SELECT, 0x20);
    assert_eq!(B_BUTTON, 0x40);
    assert_eq!(A_BUTTON, 0x80);
}

#[test]
fn difference_is_newly_pressed() {
    let now = Input::from_bits(RIGHT | DOWN | START);
    let before = Input::from_bits(RIGHT | START);
    assert_eq!(now.difference(before), Input::from_bits(DOWN));
    assert!(now.get(DOWN));
    assert!(!now.get(LEFT));
}

#[test]
fn from_fm2_string_decodes_each_column_bit() {
    let right = Input::from_fm2_string(&"R.......".to_string()).unwrap();
    assert_eq!(right, Input::from_bits(RIGHT));
    let a = Input::from_fm2_string(&".......A".to_string()).unwrap();
    assert_eq!(a, Input::from_bits(A_BUTTON));
    let all = Input::from_fm2_string(&"RLDUTSBA".to_string()).unwrap();
    assert_eq!(all.bits, 0xFF);
    let none = Input::from_fm2_string(&" ...... ".to_string()).unwrap();
    assert_eq!(none.bits, 0x00);
    let left_select = Input::from_fm2_string(&".L...S..".to_string()).unwrap();
    assert_eq!(left_select.bits, LEFT | SELECT);
}

#[test]
fn from_fm2_string_rejects_other_lengths() {
    assert!(Input::from_fm2_string(&"R......".to_string()).is_err());
    assert!(Input::from_fm2_string(&"R........".to_string()).is_err());
    assert!(Input::from_fm2_string(&"".to_string()).is_err());
}
