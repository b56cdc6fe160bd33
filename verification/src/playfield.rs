use vstd::prelude::*;

verus! {

/// The number of cells the original game addresses in its tile page:
/// 20 visible rows of 10 cells, plus the spill-over rows that the
/// 8-bit index folding of out-of-range positions can reach.
pub const CELL_COUNT: usize = 256;

/// Whether a row of the grid is fully occupied.
pub open spec fn spec_row_full(t: Seq<bool>, row: int) -> bool {
    forall|i: int| row * 10 <= i < row * 10 + 10 ==> t[i]
}

/// The grid after the block of the first `moved` cells is copied one row
/// down and the top row is zeroed, exactly as the original's row-clear
/// does.
pub open spec fn spec_shifted_down(t: Seq<bool>, moved: int) -> Seq<bool> {
    Seq::new(
        256,
        |i: int|
            if i < 10 {
                false
            } else if i < 10 + moved {
                t[i - 10]
            } else {
                t[i]
            },
    )
}

/// The grid with its first `n` cells cleared.
pub open spec fn spec_cleared_prefix(t: Seq<bool>, n: int) -> Seq<bool> {
    Seq::new(
        256,
        |i: int|
            if i < n {
                false
            } else {
                t[i]
            },
    )
}

/// The 10-by-20 playfield, stored as the original stores it: one cell
/// per index, addressed as `row * 10 + col`, with the full 256-cell
/// page kept so that the reproduced 8-bit index folding stays in range.
#[derive(Clone, Debug)]
pub struct Playfield {
    cells: Vec<bool>,
}

impl View for Playfield {
    type V = Seq<bool>;

    closed spec fn view(&self) -> Seq<bool> {
        self.cells@
    }
}

impl Playfield {
    /// Well-formed grids hold exactly the full cell page.
    pub open spec fn wf(self) -> bool {
        self@.len() == 256
    }

    /// An all-clear grid.
    pub fn new() -> (r: Playfield)
        ensures
            r.wf(),
            forall|i: int| 0 <= i < 256 ==> !r@[i],
    {
        let mut cells: Vec<bool> = Vec::new();
        let mut i: usize = 0;
        while i < CELL_COUNT
            invariant
                i <= 256,
                cells@.len() == i,
                forall|j: int| 0 <= j < i ==> !cells@[j],
            decreases 256 - i,
        {
            cells.push(false);
            i = i + 1;
        }
        Playfield { cells }
    }

    /// Reads the cell at `index`.
    pub fn get(&self, index: usize) -> (b: bool)
        requires
            self.wf(),
            index < 256,
        ensures
            b == self@[index as int],
    {
        self.cells[index]
    }

    /// Writes the cell at `index`.
    pub fn set(&mut self, index: usize, value: bool)
        requires
            old(self).wf(),
            index < 256,
        ensures
            final(self).wf(),
            final(self)@ == old(self)@.update(index as int, value),
    {
        self.cells.set(index, value);
    }

    /// Tests whether all 10 cells of `row` are occupied.
    pub fn row_full(&self, row: usize) -> (b: bool)
        requires
            self.wf(),
            row <= 24,
        ensures
            b == spec_row_full(self@, row as int),
    {
        let base = row * 10;
        let mut i: usize = 0;
        while i < 10
            invariant
                self.wf(),
                row <= 24,
                base == row * 10,
                i <= 10,
                forall|j: int| base <= j < base + i ==> self@[j],
            decreases 10 - i,
        {
            if !self.cells[base + i] {
                return false;
            }
            i = i + 1;
        }
        true
    }

    /// Copies the first `moved` cells one row down, then zeroes the top
    /// row: the original's row-consume operation.
    pub fn shift_down(&mut self, moved: usize)
        requires
            old(self).wf(),
            moved <= 246,
        ensures
            final(self).wf(),
            final(self)@ == spec_shifted_down(old(self)@, moved as int),
    {
        let mut i: usize = 10 + moved;
        while i > 10
            invariant
                self.wf(),
                moved <= 246,
                10 <= i <= 10 + moved,
                forall|j: int| 0 <= j < i ==> self@[j] == old(self)@[j],
                forall|j: int| i <= j < 10 + moved ==> self@[j] == old(self)@[j - 10],
                forall|j: int| 10 + moved <= j < 256 ==> self@[j] == old(self)@[j],
            decreases i,
        {
            i = i - 1;
            let below = self.cells[i - 10];
            self.cells.set(i, below);
        }
        let mut j: usize = 0;
        while j < 10
            invariant
                self.wf(),
                moved <= 246,
                j <= 10,
                forall|k: int| 0 <= k < j ==> !self@[k],
                forall|k: int| j <= k < 10 ==> self@[k] == old(self)@[k],
                forall|k: int| 10 <= k < 10 + moved ==> self@[k] == old(self)@[k - 10],
                forall|k: int| 10 + moved <= k < 256 ==> self@[k] == old(self)@[k],
            decreases 10 - j,
        {
            self.cells.set(j, false);
            j = j + 1;
        }
        proof {
            assert(self@ =~= spec_shifted_down(old(self)@, moved as int));
        }
    }

    /// Clears the first `n` cells of the grid.
    pub fn clear_prefix(&mut self, n: usize)
        requires
            old(self).wf(),
            n <= 256,
        ensures
            final(self).wf(),
            final(self)@ == spec_cleared_prefix(old(self)@, n as int),
    {
        let mut i: usize = 0;
        while i < n
            invariant
                self.wf(),
                n <= 256,
                i <= n,
                forall|j: int| 0 <= j < i ==> !self@[j],
                forall|j: int| i <= j < 256 ==> self@[j] == old(self)@[j],
            decreases n - i,
        {
            self.cells.set(i, false);
            i = i + 1;
        }
        proof {
            assert(self@ =~= spec_cleared_prefix(old(self)@, n as int));
        }
    }

    /// An exact copy of this grid.
    pub fn duplicate(&self) -> (r: Playfield)
        requires
            self.wf(),
        ensures
            r.wf(),
            r@ == self@,
    {
        let mut cells: Vec<bool> = Vec::new();
        let mut i: usize = 0;
        while i < CELL_COUNT
            invariant
                self.wf(),
                i <= 256,
                cells@.len() == i,
                forall|j: int| 0 <= j < i ==> cells@[j] == self@[j],
            decreases 256 - i,
        {
            cells.push(self.get(i));
            i = i + 1;
        }
        let r = Playfield { cells };
        proof {
            assert(r@ =~= self@);
        }
        r
    }

    /// Tests whether no cell at all is occupied.
    pub fn none_set(&self) -> (b: bool)
        requires
            self.wf(),
        ensures
            b == (forall|i: int| 0 <= i < 256 ==> !self@[i]),
    {
        let mut i: usize = 0;
        while i < CELL_COUNT
            invariant
                self.wf(),
                i <= 256,
                forall|j: int| 0 <= j < i ==> !self@[j],
            decreases 256 - i,
        {
            if self.cells[i] {
                return false;
            }
            i = i + 1;
        }
        true
    }
}

/// The cell of `t` at `row` and `col` under the `row * 10 + col`
/// addressing.
pub open spec fn spec_cell(t: Seq<bool>, row: int, col: int) -> bool {
    t[row * 10 + col]
}

/// The law the row-clear obeys for any interior completed row `row`:
/// consuming it moves every cell of the rows above it down by exactly
/// one row, leaves the rows below it unchanged, and leaves the top row
/// all-clear.
pub proof fn lemma_row_clear_shifts_down(t: Seq<bool>, row: int)
    requires
        t.len() == 256,
        1 <= row <= 24,
        spec_row_full(t, row),
    ensures
        forall|r: int, c: int|
            1 <= r <= row && 0 <= c < 10 ==> #[trigger] spec_cell(
                spec_shifted_down(t, row * 10),
                r,
                c,
            ) == spec_cell(t, r - 1, c),
        forall|c: int| 0 <= c < 10 ==> !#[trigger] spec_cell(spec_shifted_down(t, row * 10), 0, c),
        forall|i: int| row * 10 + 10 <= i < 256 ==> spec_shifted_down(t, row * 10)[i] == t[i],
{
    assert forall|r: int, c: int| 1 <= r <= row && 0 <= c < 10 implies #[trigger] spec_cell(
        spec_shifted_down(t, row * 10),
        r,
        c,
    ) == spec_cell(t, r - 1, c) by {
        let i = r * 10 + c;
        assert(10 <= i < 10 + row * 10) by (nonlinear_arith)
            requires
                1 <= r <= row && 0 <= c < 10 && i == r * 10 + c,
        ;
        assert(i - 10 == (r - 1) * 10 + c);
    }
}

} // verus!
