use crate::piece::Piece;
use vstd::prelude::*;

verus! {

/// The number of distinct states of the 15-bit linear-feedback shift
/// register, and so the period of the byte stream.
pub const RNG_STATES_COUNT: u16 = 32767;

/// The register seed the original game starts its shift register from.
pub const LFSR_SEED: u16 = 0x8988;

/// One step of the shift register: shift right by one and feed
/// `bit 9 XOR bit 1` of the current value in as the new top bit.
pub open spec fn lfsr_next(r: u16) -> u16 {
    ((((r >> 9) ^ (r >> 1)) & 1) << 15) | (r >> 1)
}

/// The register value after `n` steps from the seed.
pub open spec fn lfsr_reg(n: int) -> u16
    decreases n,
{
    if n <= 0 {
        LFSR_SEED
    } else {
        lfsr_next(lfsr_reg(n - 1))
    }
}

/// The byte the generator yields at index `i`: the high byte of the
/// register after `i` steps.
pub open spec fn lfsr_value(i: int) -> u8 {
    (lfsr_reg(i) >> 8) as u8
}

/// The index reached from `i` after `j` further cycles.
pub open spec fn spec_index_add(i: u16, j: int) -> u16 {
    ((i + j) % 32767) as u16
}

/// How many cycles lead from index `a` to index `b`, counting a full
/// period (never zero) when the two are equal.
pub open spec fn spec_index_distance(a: u16, b: u16) -> int {
    if b > a {
        b - a
    } else {
        b - a + 32767
    }
}

/// The mathematical state of a generator: its table index, the draw
/// counter and the piece of the previous draw.
pub ghost struct RandomView {
    pub index: u16,
    pub piece_counter: u8,
    pub last_piece: Piece,
}

impl RandomView {
    /// Well-formed generator states keep the index inside the table and
    /// the draw counter below its modulus.
    pub open spec fn wf(self) -> bool {
        self.index < 32767 && self.piece_counter < 8
    }
}

/// The generator state after one cycle: the index advances modulo the
/// period.
pub open spec fn spec_cycle(r: RandomView) -> RandomView {
    RandomView { index: spec_index_add(r.index, 1), ..r }
}

/// The generator state after `n` cycles.
pub open spec fn spec_cycle_n(r: RandomView, n: int) -> RandomView {
    RandomView { index: spec_index_add(r.index, n), ..r }
}

/// The 7-entry table the piece chooser draws from.
pub open spec fn spec_piece_table(i: u8) -> Piece {
    if i == 0 {
        Piece::TDown
    } else if i == 1 {
        Piece::JLeft
    } else if i == 2 {
        Piece::ZHorizontal
    } else if i == 3 {
        Piece::O
    } else if i == 4 {
        Piece::SHorizontal
    } else if i == 5 {
        Piece::LRight
    } else if i == 6 {
        Piece::IHorizontal
    } else {
        Piece::NoPiece
    }
}

/// The first candidate a draw computes: the current byte plus the
/// advanced draw counter, wrapped to 8 bits and reduced modulo 8.
pub open spec fn spec_first_candidate(r: RandomView) -> u8 {
    (vstd::wrapping::u8_specs::wrapping_add(
        lfsr_value(r.index as int),
        ((r.piece_counter + 1) % 8) as u8,
    ) % 8) as u8
}

/// Whether a draw from state `r` accepts its first candidate: it must
/// index the 7-entry table and differ from the previous piece.
pub open spec fn spec_first_candidate_accepted(r: RandomView) -> bool {
    spec_first_candidate(r) < 7 && spec_piece_table(spec_first_candidate(r)) != r.last_piece
}

/// The re-drawn candidate used when the first one is rejected: the byte
/// after one more cycle, modulo 8, plus the previous piece's ordinal,
/// modulo 7. Guaranteed in the table's range by the final modulus.
pub open spec fn spec_second_candidate(r: RandomView) -> u8 {
    (((lfsr_value(spec_index_add(r.index, 1) as int) % 8) + r.last_piece.spec_ordinal()) % 7) as u8
}

/// The piece chooser: the draw counter advances modulo 8; the first
/// candidate is the current byte plus the counter, modulo 8; if it is
/// out of the 7-entry table's range or repeats the previous piece, the
/// generator cycles once more and re-draws as
/// `(byte mod 8 + previous ordinal) mod 7`.
pub open spec fn spec_get_piece(r: RandomView) -> (RandomView, Piece) {
    let pc = ((r.piece_counter + 1) % 8) as u8;
    if spec_first_candidate_accepted(r) {
        let piece = spec_piece_table(spec_first_candidate(r));
        (RandomView { index: r.index, piece_counter: pc, last_piece: piece }, piece)
    } else {
        let piece = spec_piece_table(spec_second_candidate(r));
        (
            RandomView { index: spec_index_add(r.index, 1), piece_counter: pc, last_piece: piece },
            piece,
        )
    }
}

/// Whether `k` is the exact number of cycles a rejection search starting
/// at `start` runs for, under the rejection predicate `p`: every byte
/// seen before the `k`-th cycle is rejected and the `k`-th is accepted,
/// all within one period.
pub open spec fn spec_search_hit(start: u16, p: spec_fn(u8) -> bool, k: int) -> bool {
    1 <= k <= 32767 && !p(lfsr_value(spec_index_add(start, k) as int)) && forall|j: int|
        1 <= j < k ==> p(lfsr_value(spec_index_add(start, j) as int))
}

/// The index a rejection search starting at `start` stops at: the first
/// index whose byte the predicate does not reject, or `start` itself
/// again if one full period rejects everywhere.
pub open spec fn spec_search_index(start: u16, p: spec_fn(u8) -> bool) -> u16 {
    if exists|k: int| spec_search_hit(start, p, k) {
        spec_index_add(start, choose|k: int| spec_search_hit(start, p, k))
    } else {
        start
    }
}

/// The generator state after a rejection search under predicate `p`.
pub open spec fn spec_cycle_search(r: RandomView, p: spec_fn(u8) -> bool) -> RandomView {
    RandomView { index: spec_search_index(r.index, p), ..r }
}

/// The rejection predicate the original uses to pick positions below
/// 10: a byte is rejected while its low nibble is 10 or more.
pub open spec fn spec_reject_high() -> spec_fn(u8) -> bool {
    |v: u8| v % 16 >= 10
}

/// A draw leaves the generator well-formed and never yields the
/// sentinel piece.
pub proof fn lemma_get_piece_wf(r: RandomView)
    requires
        r.wf(),
    ensures
        spec_get_piece(r).0.wf(),
        spec_get_piece(r).1 != Piece::NoPiece,
{
}

/// A rejection search stops at exactly one cycle count.
pub proof fn lemma_search_hit_unique(start: u16, p: spec_fn(u8) -> bool, k1: int, k2: int)
    requires
        spec_search_hit(start, p, k1),
        spec_search_hit(start, p, k2),
    ensures
        k1 == k2,
{
    if k1 < k2 {
        assert(p(lfsr_value(spec_index_add(start, k1) as int)));
    }
    if k2 < k1 {
        assert(p(lfsr_value(spec_index_add(start, k2) as int)));
    }
}

/// Relates what `cycle_do_while` promises of its final index to the
/// specification-level search: the observed stop obeys
/// `spec_search_index`.
pub proof fn lemma_search_characterization(start: u16, end: u16, p: spec_fn(u8) -> bool)
    requires
        start < 32767,
        end < 32767,
        ({
            let k = spec_index_distance(start, end);
            &&& 1 <= k <= 32767
            &&& !p(lfsr_value(end as int))
            &&& forall|j: int| 1 <= j < k ==> p(lfsr_value(spec_index_add(start, j) as int))
        }) || (end == start && forall|j: int|
            1 <= j <= 32767 ==> p(lfsr_value(spec_index_add(start, j) as int))),
    ensures
        end == spec_search_index(start, p),
{
    let k = spec_index_distance(start, end);
    assert(spec_index_add(start, k) == end) by {
        if end > start {
            assert((start + (end - start)) % 32767 == end);
        } else {
            assert(start + (end - start + 32767) == end + 32767);
            assert((end + 32767) % 32767 == end);
        }
    }
    if !p(lfsr_value(end as int)) && 1 <= k <= 32767 && (forall|j: int|
        1 <= j < k ==> p(lfsr_value(spec_index_add(start, j) as int))) {
        assert(spec_search_hit(start, p, k));
        let kc = choose|k0: int| spec_search_hit(start, p, k0);
        lemma_search_hit_unique(start, p, k, kc);
    } else {
        assert(end == start);
        assert(forall|j: int| 1 <= j <= 32767 ==> p(lfsr_value(spec_index_add(start, j) as int)));
        assert forall|k0: int| !spec_search_hit(start, p, k0) by {
            if 1 <= k0 <= 32767 {
                assert(p(lfsr_value(spec_index_add(start, k0) as int)));
            }
        }
    }
}

/// When a draw accepts its first candidate, the drawn piece differs
/// from the previous one: the acceptance test itself rules the repeat
/// out. The re-draw path's freedom from repeats is a property of the
/// concrete byte table and is checked by exhaustive simulation in the
/// test suite.
pub proof fn lemma_get_piece_first_draw_no_repeat(r: RandomView)
    requires
        spec_first_candidate_accepted(r),
    ensures
        spec_get_piece(r).1 != r.last_piece,
{
}

/// The two interlocking pseudo-random subsystems: a 15-bit
/// linear-feedback shift register exposed as an index into a
/// precomputed byte table, and an anti-repeat piece chooser.
///
/// The byte table is computed once, during construction.
#[derive(Clone, Debug)]
pub struct Random {
    pub index: u16,
    pub piece_counter: u8,
    pub last_piece: Piece,
    table: Vec<u8>,
}

impl View for Random {
    type V = RandomView;

    closed spec fn view(&self) -> RandomView {
        RandomView {
            index: self.index,
            piece_counter: self.piece_counter,
            last_piece: self.last_piece,
        }
    }
}

impl Random {
    /// Well-formed generators keep a full, correct byte table and a
    /// well-formed mathematical state.
    pub open spec fn wf(self) -> bool {
        &&& self@.wf()
        &&& self.spec_table().len() == 32767
        &&& forall|i: int| 0 <= i < 32767 ==> self.spec_table()[i] == lfsr_value(i)
    }

    /// The stored byte table.
    pub closed spec fn spec_table(self) -> Seq<u8> {
        self.table@
    }

    /// Creates a generator at index 0 with the byte table computed from
    /// the fixed register seed.
    pub fn new() -> (r: Self)
        ensures
            r.wf(),
            r@ == (RandomView { index: 0u16, piece_counter: 0u8, last_piece: Piece::TUp }),
    {
        let mut table: Vec<u8> = Vec::new();
        let mut current: u16 = LFSR_SEED;
        let mut i: usize = 0;
        while i < 32767
            invariant
                i <= 32767,
                table@.len() == i,
                current == lfsr_reg(i as int),
                forall|j: int| 0 <= j < i ==> table@[j] == lfsr_value(j),
            decreases 32767 - i,
        {
            table.push((current >> 8) as u8);
            let new_bit = ((current >> 9) ^ (current >> 1)) & 1;
            current = (new_bit << 15) | (current >> 1);
            i = i + 1;
        }
        Random { index: 0, piece_counter: 0, last_piece: Piece::TUp, table }
    }

    /// An exact copy of this generator, byte table included.
    pub fn duplicate(&self) -> (r: Self)
        requires
            self.wf(),
        ensures
            r.wf(),
            r@ == self@,
    {
        let mut table: Vec<u8> = Vec::new();
        let mut i: usize = 0;
        while i < 32767
            invariant
                self.wf(),
                i <= 32767,
                table@.len() == i,
                forall|j: int| 0 <= j < i ==> table@[j] == self.spec_table()[j],
            decreases 32767 - i,
        {
            table.push(self.table[i]);
            i = i + 1;
        }
        Random {
            index: self.index,
            piece_counter: self.piece_counter,
            last_piece: self.last_piece,
            table,
        }
    }

    /// Advances the index by one, modulo the period.
    pub fn cycle(&mut self)
        requires
            old(self).wf(),
        ensures
            final(self).wf(),
            final(self)@ == spec_cycle(old(self)@),
    {
        self.index += 1;
        self.index %= RNG_STATES_COUNT;
    }

    /// Advances the index `count` times.
    pub fn cycle_multiple(&mut self, count: usize)
        requires
            old(self).wf(),
        ensures
            final(self).wf(),
            final(self)@ == spec_cycle_n(old(self)@, count as int),
    {
        let mut i: usize = 0;
        while i < count
            invariant
                self.wf(),
                old(self)@.wf(),
                i <= count,
                self@ == spec_cycle_n(old(self)@, i as int),
            decreases count - i,
        {
            self.cycle();
            proof {
                lemma_index_add_one(old(self)@.index, i as int);
            }
            i = i + 1;
        }
    }

    /// Reads the byte at the current index from the precomputed table.
    pub fn get_value(&self) -> (v: u8)
        requires
            self.wf(),
        ensures
            v == lfsr_value(self@.index as int),
    {
        self.table[self.index as usize]
    }

    /// Cycles at least once, then keeps cycling while `condition` holds
    /// of the byte at the current index. Scans at most one full period:
    /// if every byte of the period satisfies `condition` the search
    /// stops back where it began.
    pub fn cycle_do_while<F: Fn(u8) -> bool>(&mut self, condition: F)
        requires
            old(self).wf(),
            forall|v: u8| #[trigger] call_requires(condition, (v,)),
        ensures
            final(self).wf(),
            final(self)@.piece_counter == old(self)@.piece_counter,
            final(self)@.last_piece == old(self)@.last_piece,
            ({
                let k = spec_index_distance(old(self)@.index, final(self)@.index);
                &&& 1 <= k <= 32767
                &&& call_ensures(condition, (lfsr_value(final(self)@.index as int),), false)
                &&& forall|j: int|
                    1 <= j < k ==> call_ensures(
                        condition,
                        (lfsr_value(spec_index_add(old(self)@.index, j) as int),),
                        true,
                    )
            }) || (final(self)@.index == old(self)@.index && forall|j: int|
                1 <= j <= 32767 ==> call_ensures(
                    condition,
                    (lfsr_value(spec_index_add(old(self)@.index, j) as int),),
                    true,
                )),
    {
        let mut count: usize = 0;
        while count < 32767
            invariant
                self.wf(),
                old(self)@.wf(),
                count <= 32767,
                self@.piece_counter == old(self)@.piece_counter,
                self@.last_piece == old(self)@.last_piece,
                self@.index == spec_index_add(old(self)@.index, count as int),
                forall|v: u8| #[trigger] call_requires(condition, (v,)),
                forall|j: int|
                    1 <= j <= count ==> call_ensures(
                        condition,
                        (lfsr_value(spec_index_add(old(self)@.index, j) as int),),
                        true,
                    ),
            decreases 32767 - count,
        {
            self.cycle();
            proof {
                lemma_index_add_one(old(self)@.index, count as int);
            }
            count = count + 1;
            let v = self.get_value();
            if !condition(v) {
                proof {
                    lemma_index_distance_of_add(old(self)@.index, count as int);
                }
                return ;
            }
        }
        proof {
            assert(spec_index_add(old(self)@.index, 32767) == old(self)@.index) by {
                assert((old(self)@.index + 32767) % 32767 == old(self)@.index);
            }
        }
    }

    /// Runs the rejection sampling the original uses to pick a position
    /// below 10: cycles past every byte whose low nibble is 10 or more.
    pub fn cycle_past_high_nibbles(&mut self)
        requires
            old(self).wf(),
        ensures
            final(self).wf(),
            final(self)@ == spec_cycle_search(old(self)@, spec_reject_high()),
    {
        let ghost before = self@;
        let condition = |v: u8| -> (b: bool)
            ensures
                b == (v % 16 >= 10),
            { v % 16 >= 10 };
        self.cycle_do_while(condition);
        proof {
            let p = spec_reject_high();
            let k = spec_index_distance(before.index, self@.index);
            if 1 <= k <= 32767 && call_ensures(
                condition,
                (lfsr_value(self@.index as int),),
                false,
            ) && (forall|j: int|
                1 <= j < k ==> call_ensures(
                    condition,
                    (lfsr_value(spec_index_add(before.index, j) as int),),
                    true,
                )) {
                assert(!p(lfsr_value(self@.index as int)));
                assert forall|j: int| 1 <= j < k implies p(
                    lfsr_value(spec_index_add(before.index, j) as int),
                ) by {
                    assert(call_ensures(
                        condition,
                        (lfsr_value(spec_index_add(before.index, j) as int),),
                        true,
                    ));
                }
            } else {
                assert(self@.index == before.index);
                assert forall|j: int| 1 <= j <= 32767 implies p(
                    lfsr_value(spec_index_add(before.index, j) as int),
                ) by {
                    assert(call_ensures(
                        condition,
                        (lfsr_value(spec_index_add(before.index, j) as int),),
                        true,
                    ));
                }
            }
            lemma_search_characterization(before.index, self@.index, p);
        }
    }

    /// Draws the next piece, advancing the generator as
    /// [`spec_get_piece`] describes.
    pub fn get_piece(&mut self) -> (p: Piece)
        requires
            old(self).wf(),
        ensures
            final(self).wf(),
            final(self)@ == spec_get_piece(old(self)@).0,
            p == spec_get_piece(old(self)@).1,
    {
        self.piece_counter = (self.piece_counter + 1) % 8;
        let piece_index = self.get_value().wrapping_add(self.piece_counter) % 8;
        let piece = if piece_index >= 7 || piece_table(piece_index) == self.last_piece {
            self.cycle();
            let second = ((self.get_value() % 8) + self.last_piece.ordinal()) % 7;
            piece_table(second)
        } else {
            piece_table(piece_index)
        };
        self.last_piece = piece;
        piece
    }
}

/// Looks a candidate index up in the 7-entry piece table.
fn piece_table(i: u8) -> (p: Piece)
    requires
        i < 7,
    ensures
        p == spec_piece_table(i),
{
    if i == 0 {
        Piece::TDown
    } else if i == 1 {
        Piece::JLeft
    } else if i == 2 {
        Piece::ZHorizontal
    } else if i == 3 {
        Piece::O
    } else if i == 4 {
        Piece::SHorizontal
    } else if i == 5 {
        Piece::LRight
    } else {
        Piece::IHorizontal
    }
}

/// Adding one more cycle after `j` lands where adding `j + 1` does.
proof fn lemma_index_add_one(start: u16, j: int)
    requires
        start < 32767,
        0 <= j,
    ensures
        spec_index_add(spec_index_add(start, j) as u16, 1) == spec_index_add(start, j + 1),
{
    assert((start + j) % 32767 + 1 == start + j + 1 - 32767 * ((start + j) / 32767));
    assert((start + (j + 1)) % 32767 == ((start + j) % 32767 + 1) % 32767) by (nonlinear_arith);
}

/// The distance from `start` to the index `k` cycles onward is `k`,
/// for `k` within one period.
proof fn lemma_index_distance_of_add(start: u16, k: int)
    requires
        start < 32767,
        1 <= k <= 32767,
    ensures
        spec_index_distance(start, spec_index_add(start, k)) == k,
{
    if start + k < 32767 {
        assert((start + k) % 32767 == start + k);
    } else {
        assert((start + k) % 32767 == start + k - 32767);
    }
}

impl Default for Random {
    fn default() -> (r: Self)
        ensures
            r.wf(),
            r@ == (RandomView { index: 0u16, piece_counter: 0u8, last_piece: Piece::TUp }),
    {
        Self::new()
    }
}

} // verus!
