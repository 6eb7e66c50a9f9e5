//! The mathematical model of the grid: a torus of cells stored row by row,
//! the count of live neighbours and the step from one generation to the next.

use vstd::prelude::*;
use vstd::arithmetic::div_mod::lemma_fundamental_div_mod_converse;
use crate::cell::{Cell, rule};

verus! {

/// The dimensions a grid may have: both at least one, and few enough cells
/// that every cell index fits in 32 bits.
///
/// A grid without rows or without columns is not a grid here: on an axis of
/// length zero no position has a neighbour.
pub open spec fn valid_dimensions(width: int, height: int) -> bool {
    width >= 1 && height >= 1 && width * height <= u32::MAX
}

/// The state that the default pattern gives to the cell with linear index
/// `index`: alive where the index is a multiple of 2 or of 7.
///
/// The pattern starts at index 0 on every grid, however small: the first cell
/// is always alive.
pub open spec fn seed(index: int) -> Cell {
    if index % 2 == 0 || index % 7 == 0 {
        Cell::Alive
    } else {
        Cell::Dead
    }
}

/// The position `offset` steps after `position` on a ring of `length`
/// positions.
pub open spec fn wrap(position: int, offset: int, length: int) -> int {
    (position + offset) % length
}

/// The position before `position` on a ring of `length` positions.
pub open spec fn ring_prev(position: int, length: int) -> int {
    if position == 0 {
        length - 1
    } else {
        position - 1
    }
}

/// The position after `position` on a ring of `length` positions.
pub open spec fn ring_next(position: int, length: int) -> int {
    if position == length - 1 {
        0
    } else {
        position + 1
    }
}

/// A grid of cells, stored row by row: the cell in row `row` and column
/// `col` is `cells[row * width + col]`.
pub struct Grid {
    pub width: nat,
    pub height: nat,
    pub cells: Seq<Cell>,
}

impl Grid {
    /// Both dimensions are at least one, and there is one cell for each
    /// position.
    pub open spec fn wf(self) -> bool {
        &&& self.width >= 1
        &&& self.height >= 1
        &&& self.cells.len() == self.width * self.height
    }

    /// The grid of the given dimensions that holds the default pattern.
    pub open spec fn seeded(width: nat, height: nat) -> Grid {
        Grid { width, height, cells: Seq::new(width * height, |i: int| seed(i)) }
    }

    /// Whether `(row, col)` is a position of the grid.
    pub open spec fn contains(self, row: int, col: int) -> bool {
        0 <= row < self.height && 0 <= col < self.width
    }

    /// The linear index of the cell in row `row` and column `col`.
    pub open spec fn index(self, row: int, col: int) -> int {
        row * self.width + col
    }

    /// The cell in row `row` and column `col`.
    pub open spec fn at(self, row: int, col: int) -> Cell {
        self.cells[self.index(row, col)]
    }

    /// What the cell `dr` rows and `dc` columns after `(row, col)`, wrapping
    /// at the edges, adds to the neighbour count of `(row, col)`: 1 if it is
    /// alive, and nothing where both offsets are zero.
    pub open spec fn counted(self, row: int, col: int, dr: int, dc: int) -> nat {
        if dr == 0 && dc == 0 {
            0
        } else {
            self.at(wrap(row, dr, self.height as int), wrap(col, dc, self.width as int)).weight()
        }
    }

    /// The neighbour count of `(row, col)` within the row `dr` rows after
    /// it: the column offsets are `width - 1`, 0 and 1.
    pub open spec fn band(self, row: int, col: int, dr: int) -> nat {
        self.counted(row, col, dr, self.width - 1) + self.counted(row, col, dr, 0) + self.counted(
            row,
            col,
            dr,
            1,
        )
    }

    /// The number of live neighbours of `(row, col)`: the sum of `counted`
    /// over the row offsets `height - 1`, 0 and 1 and the column offsets
    /// `width - 1`, 0 and 1.
    ///
    /// Where both dimensions are at least two, these are the eight cells
    /// around `(row, col)` on the torus. On a grid with a single row or a
    /// single column the offset `height - 1` or `width - 1` is zero, so some
    /// cells are counted more than once and the cell itself is counted too.
    pub open spec fn live_neighbors(self, row: int, col: int) -> nat {
        self.band(row, col, self.height - 1) + self.band(row, col, 0) + self.band(row, col, 1)
    }

    /// The state in the next generation of the cell with linear index
    /// `index`.
    pub open spec fn next_cell(self, index: int) -> Cell {
        rule(
            self.cells[index],
            self.live_neighbors(index / (self.width as int), index % (self.width as int)),
        )
    }

    /// The next generation: every cell takes the state that the rule gives
    /// it from the current generation.
    pub open spec fn step(self) -> Grid {
        Grid {
            width: self.width,
            height: self.height,
            cells: Seq::new(self.cells.len(), |i: int| self.next_cell(i)),
        }
    }

    /// The grid `generations` steps later.
    pub open spec fn after(self, generations: nat) -> Grid
        decreases generations,
    {
        if generations == 0 {
            self
        } else {
            self.after((generations - 1) as nat).step()
        }
    }

    /// Every position of the grid has a linear index within the cells, and
    /// the index gives the position back.
    pub proof fn lemma_index(self, row: int, col: int)
        requires
            self.wf(),
            self.contains(row, col),
        ensures
            0 <= self.index(row, col) < self.cells.len(),
            self.index(row, col) / (self.width as int) == row,
            self.index(row, col) % (self.width as int) == col,
    {
        let w = self.width as int;
        let h = self.height as int;
        assert(0 <= row * w && row * w + w <= h * w) by (nonlinear_arith)
            requires
                0 <= row < h,
                w >= 1,
        ;
        lemma_fundamental_div_mod_converse(row * w + col, w, row, col);
    }

    /// Every linear index within the cells is the index of one position of
    /// the grid.
    pub proof fn lemma_position(self, index: int)
        requires
            self.wf(),
            0 <= index < self.cells.len(),
        ensures
            self.contains(index / (self.width as int), index % (self.width as int)),
            self.index(index / (self.width as int), index % (self.width as int)) == index,
    {
        let w = self.width as int;
        let h = self.height as int;
        let q = index / w;
        let r = index % w;
        assert(index == q * w + r && 0 <= r < w) by {
            vstd::arithmetic::div_mod::lemma_fundamental_div_mod(index, w);
            assert(w * q == q * w) by (nonlinear_arith);
        }
        assert(0 <= q < h) by (nonlinear_arith)
            requires
                0 <= q * w + r < h * w,
                0 <= r < w,
                w >= 1,
        ;
    }

    /// The next generation has the dimensions of this one, and as many
    /// cells.
    pub proof fn lemma_step_wf(self)
        requires
            self.wf(),
        ensures
            self.step().wf(),
            self.step().width == self.width,
            self.step().height == self.height,
    {
    }

    /// In the next generation the cell at each position has the state that
    /// the rule gives it from its state and its live neighbours now.
    pub proof fn lemma_step_at(self, row: int, col: int)
        requires
            self.wf(),
            self.contains(row, col),
        ensures
            self.step().at(row, col) == rule(self.at(row, col), self.live_neighbors(row, col)),
    {
        self.lemma_index(row, col);
    }

    /// No cell has more than eight live neighbours.
    pub proof fn lemma_live_neighbors_at_most_eight(self, row: int, col: int)
        ensures
            self.live_neighbors(row, col) <= 8,
    {
    }

    /// Any number of generations later the grid has the same dimensions and
    /// as many cells.
    pub proof fn lemma_after_wf(self, generations: nat)
        requires
            self.wf(),
        ensures
            self.after(generations).wf(),
            self.after(generations).width == self.width,
            self.after(generations).height == self.height,
        decreases generations,
    {
        if generations > 0 {
            self.lemma_after_wf((generations - 1) as nat);
            self.after((generations - 1) as nat).lemma_step_wf();
        }
    }

    /// The default pattern fills a grid of valid dimensions.
    pub proof fn lemma_seeded_wf(width: nat, height: nat)
        requires
            width >= 1,
            height >= 1,
        ensures
            Grid::seeded(width, height).wf(),
    {
    }
}

/// The offsets `length - 1`, 0 and 1 on a ring lead to the position before,
/// the position itself and the position after: the step back from position 0
/// arrives at `length - 1`, the step forward from `length - 1` at 0.
pub proof fn lemma_wrap(position: int, length: int)
    requires
        0 <= position < length,
    ensures
        wrap(position, length - 1, length) == ring_prev(position, length),
        wrap(position, 0, length) == position,
        wrap(position, 1, length) == ring_next(position, length),
        0 <= ring_prev(position, length) < length,
        0 <= ring_next(position, length) < length,
{
    if position == 0 {
        lemma_fundamental_div_mod_converse(position + length - 1, length, 0, length - 1);
    } else {
        lemma_fundamental_div_mod_converse(position + length - 1, length, 1, position - 1);
    }
    lemma_fundamental_div_mod_converse(position, length, 0, position);
    if position == length - 1 {
        lemma_fundamental_div_mod_converse(position + 1, length, 1, 0);
    } else {
        lemma_fundamental_div_mod_converse(position + 1, length, 0, position + 1);
    }
}

} // verus!
