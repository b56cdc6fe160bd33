use vstd::prelude::*;

verus! {

/// One of the 19 named piece orientations, plus a sentinel `None` value
/// used while a piece is mid-transition between lock and respawn.
#[derive(Clone, Copy, Debug, PartialEq, Eq, Structural)]
pub enum Piece {
    TUp,
    TRight,
    TDown,
    TLeft,
    JUp,
    JRight,
    JDown,
    JLeft,
    ZHorizontal,
    ZVertical,
    O,
    SHorizontal,
    SVertical,
    LUp,
    LRight,
    LDown,
    LLeft,
    IVertical,
    IHorizontal,
    NoPiece,
}

impl Piece {
    /// The ordinal of this orientation in the fixed 0..19 numbering the
    /// original game stores in memory; the sentinel is 19.
    pub open spec fn spec_ordinal(self) -> u8 {
        match self {
            Piece::TUp => 0,
            Piece::TRight => 1,
            Piece::TDown => 2,
            Piece::TLeft => 3,
            Piece::JUp => 4,
            Piece::JRight => 5,
            Piece::JDown => 6,
            Piece::JLeft => 7,
            Piece::ZHorizontal => 8,
            Piece::ZVertical => 9,
            Piece::O => 10,
            Piece::SHorizontal => 11,
            Piece::SVertical => 12,
            Piece::LUp => 13,
            Piece::LRight => 14,
            Piece::LDown => 15,
            Piece::LLeft => 16,
            Piece::IVertical => 17,
            Piece::IHorizontal => 18,
            Piece::NoPiece => 19,
        }
    }

    /// Returns the orientation's ordinal in the fixed 0..19 numbering.
    pub fn ordinal(self) -> (r: u8)
        ensures
            r == self.spec_ordinal(),
    {
        match self {
            Piece::TUp => 0,
            Piece::TRight => 1,
            Piece::TDown => 2,
            Piece::TLeft => 3,
            Piece::JUp => 4,
            Piece::JRight => 5,
            Piece::JDown => 6,
            Piece::JLeft => 7,
            Piece::ZHorizontal => 8,
            Piece::ZVertical => 9,
            Piece::O => 10,
            Piece::SHorizontal => 11,
            Piece::SVertical => 12,
            Piece::LUp => 13,
            Piece::LRight => 14,
            Piece::LDown => 15,
            Piece::LLeft => 16,
            Piece::IVertical => 17,
            Piece::IHorizontal => 18,
            Piece::NoPiece => 19,
        }
    }

    /// The clockwise successor in this piece's rotation cycle: 4-cycles
    /// for T, J and L, 2-cycles for Z, S and I, a self-map for O and the
    /// sentinel.
    pub open spec fn spec_clockwise_rotation(self) -> Piece {
        match self {
            Piece::TUp => Piece::TRight,
            Piece::TRight => Piece::TDown,
            Piece::TDown => Piece::TLeft,
            Piece::TLeft => Piece::TUp,
            Piece::JUp => Piece::JRight,
            Piece::JRight => Piece::JDown,
            Piece::JDown => Piece::JLeft,
            Piece::JLeft => Piece::JUp,
            Piece::ZHorizontal => Piece::ZVertical,
            Piece::ZVertical => Piece::ZHorizontal,
            Piece::O => Piece::O,
            Piece::SHorizontal => Piece::SVertical,
            Piece::SVertical => Piece::SHorizontal,
            Piece::LUp => Piece::LRight,
            Piece::LRight => Piece::LDown,
            Piece::LDown => Piece::LLeft,
            Piece::LLeft => Piece::LUp,
            Piece::IVertical => Piece::IHorizontal,
            Piece::IHorizontal => Piece::IVertical,
            Piece::NoPiece => Piece::NoPiece,
        }
    }

    /// Returns the clockwise successor orientation.
    pub fn get_clockwise_rotation(self) -> (r: Piece)
        ensures
            r == self.spec_clockwise_rotation(),
    {
        match self {
            Piece::TUp => Piece::TRight,
            Piece::TRight => Piece::TDown,
            Piece::TDown => Piece::TLeft,
            Piece::TLeft => Piece::TUp,
            Piece::JUp => Piece::JRight,
            Piece::JRight => Piece::JDown,
            Piece::JDown => Piece::JLeft,
            Piece::JLeft => Piece::JUp,
            Piece::ZHorizontal => Piece::ZVertical,
            Piece::ZVertical => Piece::ZHorizontal,
            Piece::O => Piece::O,
            Piece::SHorizontal => Piece::SVertical,
            Piece::SVertical => Piece::SHorizontal,
            Piece::LUp => Piece::LRight,
            Piece::LRight => Piece::LDown,
            Piece::LDown => Piece::LLeft,
            Piece::LLeft => Piece::LUp,
            Piece::IVertical => Piece::IHorizontal,
            Piece::IHorizontal => Piece::IVertical,
            Piece::NoPiece => Piece::NoPiece,
        }
    }

    /// The counterclockwise successor: the inverse of the clockwise map.
    pub open spec fn spec_counterclockwise_rotation(self) -> Piece {
        match self {
            Piece::TUp => Piece::TLeft,
            Piece::TRight => Piece::TUp,
            Piece::TDown => Piece::TRight,
            Piece::TLeft => Piece::TDown,
            Piece::JUp => Piece::JLeft,
            Piece::JRight => Piece::JUp,
            Piece::JDown => Piece::JRight,
            Piece::JLeft => Piece::JDown,
            Piece::ZHorizontal => Piece::ZVertical,
            Piece::ZVertical => Piece::ZHorizontal,
            Piece::O => Piece::O,
            Piece::SHorizontal => Piece::SVertical,
            Piece::SVertical => Piece::SHorizontal,
            Piece::LUp => Piece::LLeft,
            Piece::LRight => Piece::LUp,
            Piece::LDown => Piece::LRight,
            Piece::LLeft => Piece::LDown,
            Piece::IVertical => Piece::IHorizontal,
            Piece::IHorizontal => Piece::IVertical,
            Piece::NoPiece => Piece::NoPiece,
        }
    }

    /// Returns the counterclockwise successor orientation.
    pub fn get_counterclockwise_rotation(self) -> (r: Piece)
        ensures
            r == self.spec_counterclockwise_rotation(),
    {
        match self {
            Piece::TUp => Piece::TLeft,
            Piece::TRight => Piece::TUp,
            Piece::TDown => Piece::TRight,
            Piece::TLeft => Piece::TDown,
            Piece::JUp => Piece::JLeft,
            Piece::JRight => Piece::JUp,
            Piece::JDown => Piece::JRight,
            Piece::JLeft => Piece::JDown,
            Piece::ZHorizontal => Piece::ZVertical,
            Piece::ZVertical => Piece::ZHorizontal,
            Piece::O => Piece::O,
            Piece::SHorizontal => Piece::SVertical,
            Piece::SVertical => Piece::SHorizontal,
            Piece::LUp => Piece::LLeft,
            Piece::LRight => Piece::LUp,
            Piece::LDown => Piece::LRight,
            Piece::LLeft => Piece::LDown,
            Piece::IVertical => Piece::IHorizontal,
            Piece::IHorizontal => Piece::IVertical,
            Piece::NoPiece => Piece::NoPiece,
        }
    }

    /// The four `(dx, dy)` cell offsets this orientation occupies
    /// relative to its pivot. The sentinel owns no cells and maps to the
    /// empty sequence.
    pub open spec fn spec_tile_offsets(self) -> Seq<(i8, i8)> {
        match self {
            Piece::TUp => seq![(-1i8, 0i8), (0i8, 0i8), (1i8, 0i8), (0i8, -1i8)],
            Piece::TRight => seq![(0i8, -1i8), (0i8, 0i8), (1i8, 0i8), (0i8, 1i8)],
            Piece::TDown => seq![(-1i8, 0i8), (0i8, 0i8), (1i8, 0i8), (0i8, 1i8)],
            Piece::TLeft => seq![(0i8, -1i8), (-1i8, 0i8), (0i8, 0i8), (0i8, 1i8)],
            Piece::JUp => seq![(0i8, -1i8), (0i8, 0i8), (-1i8, 1i8), (0i8, 1i8)],
            Piece::JRight => seq![(-1i8, -1i8), (-1i8, 0i8), (0i8, 0i8), (1i8, 0i8)],
            Piece::JDown => seq![(0i8, -1i8), (1i8, -1i8), (0i8, 0i8), (0i8, 1i8)],
            Piece::JLeft => seq![(-1i8, 0i8), (0i8, 0i8), (1i8, 0i8), (1i8, 1i8)],
            Piece::ZHorizontal => seq![(-1i8, 0i8), (0i8, 0i8), (0i8, 1i8), (1i8, 1i8)],
            Piece::ZVertical => seq![(1i8, -1i8), (0i8, 0i8), (1i8, 0i8), (0i8, 1i8)],
            Piece::O => seq![(-1i8, 0i8), (0i8, 0i8), (-1i8, 1i8), (0i8, 1i8)],
            Piece::SHorizontal => seq![(0i8, 0i8), (1i8, 0i8), (-1i8, 1i8), (0i8, 1i8)],
            Piece::SVertical => seq![(0i8, -1i8), (0i8, 0i8), (1i8, 0i8), (1i8, 1i8)],
            Piece::LUp => seq![(0i8, -1i8), (0i8, 0i8), (0i8, 1i8), (1i8, 1i8)],
            Piece::LRight => seq![(-1i8, 0i8), (0i8, 0i8), (1i8, 0i8), (-1i8, 1i8)],
            Piece::LDown => seq![(-1i8, -1i8), (0i8, -1i8), (0i8, 0i8), (0i8, 1i8)],
            Piece::LLeft => seq![(1i8, -1i8), (-1i8, 0i8), (0i8, 0i8), (1i8, 0i8)],
            Piece::IVertical => seq![(0i8, -2i8), (0i8, -1i8), (0i8, 0i8), (0i8, 1i8)],
            Piece::IHorizontal => seq![(-2i8, 0i8), (-1i8, 0i8), (0i8, 0i8), (1i8, 0i8)],
            Piece::NoPiece => seq![],
        }
    }

    /// Returns the `k`-th of the orientation's four cell offsets. Every
    /// offset lies within two cells of the pivot.
    pub fn tile_offset(self, k: usize) -> (r: (i8, i8))
        requires
            self != Piece::NoPiece,
            k < 4,
        ensures
            r == self.spec_tile_offsets()[k as int],
            -2 <= r.0 <= 1,
            -2 <= r.1 <= 1,
    {
        match self {
            Piece::TUp => [(-1, 0), (0, 0), (1, 0), (0, -1)][k],
            Piece::TRight => [(0, -1), (0, 0), (1, 0), (0, 1)][k],
            Piece::TDown => [(-1, 0), (0, 0), (1, 0), (0, 1)][k],
            Piece::TLeft => [(0, -1), (-1, 0), (0, 0), (0, 1)][k],
            Piece::JUp => [(0, -1), (0, 0), (-1, 1), (0, 1)][k],
            Piece::JRight => [(-1, -1), (-1, 0), (0, 0), (1, 0)][k],
            Piece::JDown => [(0, -1), (1, -1), (0, 0), (0, 1)][k],
            Piece::JLeft => [(-1, 0), (0, 0), (1, 0), (1, 1)][k],
            Piece::ZHorizontal => [(-1, 0), (0, 0), (0, 1), (1, 1)][k],
            Piece::ZVertical => [(1, -1), (0, 0), (1, 0), (0, 1)][k],
            Piece::O => [(-1, 0), (0, 0), (-1, 1), (0, 1)][k],
            Piece::SHorizontal => [(0, 0), (1, 0), (-1, 1), (0, 1)][k],
            Piece::SVertical => [(0, -1), (0, 0), (1, 0), (1, 1)][k],
            Piece::LUp => [(0, -1), (0, 0), (0, 1), (1, 1)][k],
            Piece::LRight => [(-1, 0), (0, 0), (1, 0), (-1, 1)][k],
            Piece::LDown => [(-1, -1), (0, -1), (0, 0), (0, 1)][k],
            Piece::LLeft => [(1, -1), (-1, 0), (0, 0), (1, 0)][k],
            Piece::IVertical => [(0, -2), (0, -1), (0, 0), (0, 1)][k],
            Piece::IHorizontal => [(-2, 0), (-1, 0), (0, 0), (1, 0)][k],
            Piece::NoPiece => [(0, 0), (0, 0), (0, 0), (0, 0)][k],
        }
    }

    /// Returns all four cell offsets of the orientation at once.
    #[verifier::rlimit(100)]
    pub fn get_tile_offsets(self) -> (r: [(i8, i8); 4])
        requires
            self != Piece::NoPiece,
        ensures
            r@ == self.spec_tile_offsets(),
    {
        let r = [self.tile_offset(0), self.tile_offset(1), self.tile_offset(2), self.tile_offset(3)];
        proof {
            assert(r@ =~= self.spec_tile_offsets());
        }
        r
    }
}

} // verus!
