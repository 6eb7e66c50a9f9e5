//! The executable grid.
//!
//! A [`Universe`] owns the cells of one generation. Its view is the
//! [`Grid`] it holds, and every contract here is stated over that view.

use vstd::prelude::*;
use crate::cell::Cell;
use crate::grid::{Grid, seed, valid_dimensions, wrap};

verus! {

/// Why a universe could not be built.
#[derive(Clone, Copy, Debug, PartialEq, Eq, Structural)]
pub enum UniverseError {
    /// A dimension is zero, or the grid would have more cells than a 32-bit
    /// index can reach.
    InvalidDimensions,
    /// The number of cells given is not `width * height`.
    CellCountMismatch,
}

/// A grid of fixed dimensions and the cells of its current generation.
pub struct Universe {
    width: u32,
    height: u32,
    cells: Vec<Cell>,
}

impl View for Universe {
    type V = Grid;

    closed spec fn view(&self) -> Grid {
        Grid { width: self.width as nat, height: self.height as nat, cells: self.cells@ }
    }
}

/// Whether `width` and `height` are dimensions that a universe can have.
pub fn dimensions_are_valid(width: u32, height: u32) -> (valid: bool)
    ensures
        valid == valid_dimensions(width as int, height as int),
{
    if width == 0 || height == 0 {
        false
    } else {
        assert((width as u64) * (height as u64) <= u64::MAX) by (nonlinear_arith)
            requires
                width <= u32::MAX,
                height <= u32::MAX,
        ;
        let count: u64 = (width as u64) * (height as u64);
        count <= 0xffff_ffff
    }
}

/// Offset number `k` along an axis of `length` positions: one step back
/// (as `length - 1` steps forward), none, one step forward.
spec fn offset(length: int, k: int) -> int {
    if k == 0 {
        length - 1
    } else if k == 1 {
        0
    } else {
        1
    }
}

/// What the first `n` column offsets add to the neighbour count of
/// `(row, col)` in the row `dr` rows after it.
spec fn band_before(grid: Grid, row: int, col: int, dr: int, n: int) -> nat {
    let w = grid.width as int;
    (if n > 0 {
        grid.counted(row, col, dr, offset(w, 0))
    } else {
        0
    }) + (if n > 1 {
        grid.counted(row, col, dr, offset(w, 1))
    } else {
        0
    }) + (if n > 2 {
        grid.counted(row, col, dr, offset(w, 2))
    } else {
        0
    })
}

/// What the first `m` row offsets add to the neighbour count of
/// `(row, col)`.
spec fn bands_before(grid: Grid, row: int, col: int, m: int) -> nat {
    let h = grid.height as int;
    (if m > 0 {
        grid.band(row, col, offset(h, 0))
    } else {
        0
    }) + (if m > 1 {
        grid.band(row, col, offset(h, 1))
    } else {
        0
    }) + (if m > 2 {
        grid.band(row, col, offset(h, 2))
    } else {
        0
    })
}

/// The position `offset` steps after `position` on a ring of `length`
/// positions.
fn wrapped(position: u32, offset: u32, length: u32) -> (target: u32)
    requires
        length >= 1,
    ensures
        target == wrap(position as int, offset as int, length as int),
        target < length,
{
    let sum: u64 = position as u64 + offset as u64;
    let target: u64 = sum % (length as u64);
    target as u32
}

impl Universe {
    #[verifier::type_invariant]
    spec fn inv(self) -> bool {
        &&& valid_dimensions(self.width as int, self.height as int)
        &&& self.cells@.len() == self.width * self.height
    }

    /// A universe of the given dimensions that holds the default pattern:
    /// the cell with linear index `i` is alive where `i` is a multiple of 2
    /// or of 7.
    ///
    /// The dimensions must be valid; [`Universe::try_new`] tests them first.
    pub fn new(width: u32, height: u32) -> (universe: Universe)
        requires
            valid_dimensions(width as int, height as int),
        ensures
            universe@ == Grid::seeded(width as nat, height as nat),
            universe@.wf(),
    {
        let count: usize = (width as usize) * (height as usize);
        let mut cells: Vec<Cell> = Vec::with_capacity(count);
        let mut i: usize = 0;
        while i < count
            invariant
                i <= count,
                cells@.len() == i,
                forall|k: int| 0 <= k < i ==> cells@[k] == seed(k),
            decreases count - i,
        {
            let cell = if i % 2 == 0 || i % 7 == 0 {
                Cell::Alive
            } else {
                Cell::Dead
            };
            cells.push(cell);
            i += 1;
        }
        assert(cells@ =~= Grid::seeded(width as nat, height as nat).cells);
        Universe { width, height, cells }
    }

    /// A universe of the given dimensions with the default pattern, or
    /// `InvalidDimensions` where the dimensions are not valid.
    pub fn try_new(width: u32, height: u32) -> (result: Result<Universe, UniverseError>)
        ensures
            match result {
                Ok(universe) => {
                    &&& valid_dimensions(width as int, height as int)
                    &&& universe@ == Grid::seeded(width as nat, height as nat)
                    &&& universe@.wf()
                },
                Err(error) => {
                    &&& !valid_dimensions(width as int, height as int)
                    &&& error == UniverseError::InvalidDimensions
                },
            },
    {
        if dimensions_are_valid(width, height) {
            Ok(Universe::new(width, height))
        } else {
            Err(UniverseError::InvalidDimensions)
        }
    }

    /// A universe of the given dimensions that holds the given cells, row by
    /// row.
    ///
    /// Fails with `InvalidDimensions` where the dimensions are not valid, and
    /// otherwise with `CellCountMismatch` where the number of cells is not
    /// `width * height`.
    pub fn from_cells(width: u32, height: u32, cells: Vec<Cell>) -> (result: Result<
        Universe,
        UniverseError,
    >)
        ensures
            match result {
                Ok(universe) => {
                    &&& valid_dimensions(width as int, height as int)
                    &&& cells@.len() == width * height
                    &&& universe@ == (Grid {
                        width: width as nat,
                        height: height as nat,
                        cells: cells@,
                    })
                    &&& universe@.wf()
                },
                Err(UniverseError::InvalidDimensions) => !valid_dimensions(
                    width as int,
                    height as int,
                ),
                Err(UniverseError::CellCountMismatch) => {
                    &&& valid_dimensions(width as int, height as int)
                    &&& cells@.len() != width * height
                },
            },
    {
        if !dimensions_are_valid(width, height) {
            return Err(UniverseError::InvalidDimensions);
        }
        let count: usize = (width as usize) * (height as usize);
        if cells.len() != count {
            return Err(UniverseError::CellCountMismatch);
        }
        Ok(Universe { width, height, cells })
    }

    /// The number of columns.
    pub fn width(&self) -> (width: u32)
        ensures
            width == self@.width,
            self@.wf(),
    {
        proof {
            use_type_invariant(self);
        }
        self.width
    }

    /// The number of rows.
    pub fn height(&self) -> (height: u32)
        ensures
            height == self@.height,
            self@.wf(),
    {
        proof {
            use_type_invariant(self);
        }
        self.height
    }

    /// The cells of the current generation, row by row.
    ///
    /// The slice borrows the universe, so it cannot be held across a call of
    /// [`Universe::tick`].
    pub fn cells(&self) -> (cells: &[Cell])
        ensures
            cells@ == self@.cells,
            self@.wf(),
    {
        proof {
            use_type_invariant(self);
        }
        self.cells.as_slice()
    }

    /// The cells of the current generation as bytes, row by row: 0 for a
    /// dead cell, 1 for a live one.
    pub fn to_bytes(&self) -> (bytes: Vec<u8>)
        ensures
            bytes@.len() == self@.cells.len(),
            forall|i: int| 0 <= i < bytes@.len() ==> bytes@[i] == self@.cells[i].weight(),
            self@.wf(),
    {
        proof {
            use_type_invariant(self);
        }
        let mut bytes: Vec<u8> = Vec::with_capacity(self.cells.len());
        let mut i: usize = 0;
        while i < self.cells.len()
            invariant
                i <= self.cells@.len(),
                bytes@.len() == i,
                forall|k: int| 0 <= k < i ==> bytes@[k] == self.cells@[k].weight(),
            decreases self.cells@.len() - i,
        {
            bytes.push(self.cells[i].to_byte());
            i += 1;
        }
        bytes
    }

    /// The linear index of the cell in row `row` and column `col`.
    fn get_index(&self, row: u32, col: u32) -> (index: usize)
        requires
            self@.contains(row as int, col as int),
        ensures
            index == self@.index(row as int, col as int),
            index < self@.cells.len(),
    {
        proof {
            use_type_invariant(self);
            self@.lemma_index(row as int, col as int);
        }
        (row as usize) * (self.width as usize) + (col as usize)
    }

    /// The number of live neighbours of the cell in row `row` and column
    /// `col`.
    pub fn live_neighbor_count(&self, row: u32, col: u32) -> (count: u8)
        requires
            self@.contains(row as int, col as int),
        ensures
            count == self@.live_neighbors(row as int, col as int),
            count <= 8,
    {
        proof {
            use_type_invariant(self);
        }
        let row_offsets: [u32; 3] = [self.height - 1, 0, 1];
        let col_offsets: [u32; 3] = [self.width - 1, 0, 1];
        let ghost grid = self@;
        let mut count: u8 = 0;
        let mut i: usize = 0;
        while i < 3
            invariant
                i <= 3,
                self@ == grid,
                grid.wf(),
                grid.contains(row as int, col as int),
                forall|k: int| 0 <= k < 3 ==> row_offsets@[k] == offset(grid.height as int, k),
                forall|k: int| 0 <= k < 3 ==> col_offsets@[k] == offset(grid.width as int, k),
                count == bands_before(grid, row as int, col as int, i as int),
                count <= 3 * i,
            decreases 3 - i,
        {
            let delta_row = row_offsets[i];
            let mut j: usize = 0;
            while j < 3
                invariant
                    i < 3,
                    j <= 3,
                    self@ == grid,
                    grid.wf(),
                    grid.contains(row as int, col as int),
                    delta_row == offset(grid.height as int, i as int),
                    forall|k: int| 0 <= k < 3 ==> col_offsets@[k] == offset(grid.width as int, k),
                    count == bands_before(grid, row as int, col as int, i as int) + band_before(
                        grid,
                        row as int,
                        col as int,
                        delta_row as int,
                        j as int,
                    ),
                    count <= 3 * i + j,
                decreases 3 - j,
            {
                let delta_col = col_offsets[j];
                if !(delta_row == 0 && delta_col == 0) {
                    let neighbor_row = wrapped(row, delta_row, self.height);
                    let neighbor_col = wrapped(col, delta_col, self.width);
                    let index = self.get_index(neighbor_row, neighbor_col);
                    count += self.cells[index].to_byte();
                }
                j += 1;
            }
            i += 1;
        }
        count
    }

    /// Advances the universe by one generation.
    ///
    /// Every cell of the new generation is computed from the cells of the
    /// old one.
    pub fn tick(&mut self)
        ensures
            final(self)@ == old(self)@.step(),
            final(self)@.wf(),
    {
        proof {
            use_type_invariant(&*self);
        }
        let ghost grid = self@;
        let mut next = self.cells.clone();
        let mut row: u32 = 0;
        while row < self.height
            invariant
                self@ == grid,
                grid.wf(),
                row <= self.height,
                next@.len() == grid.cells.len(),
                forall|k: int| 0 <= k < row * grid.width ==> next@[k] == grid.next_cell(k),
            decreases self.height - row,
        {
            let mut col: u32 = 0;
            while col < self.width
                invariant
                    self@ == grid,
                    grid.wf(),
                    row < self.height,
                    col <= self.width,
                    next@.len() == grid.cells.len(),
                    forall|k: int| 0 <= k < row * grid.width + col ==> next@[k] == grid.next_cell(k),
                decreases self.width - col,
            {
                let index = self.get_index(row, col);
                let cell = self.cells[index];
                let live_neighbors = self.live_neighbor_count(row, col);
                let next_cell = cell.next_state(live_neighbors);
                proof {
                    grid.lemma_index(row as int, col as int);
                }
                next.set(index, next_cell);
                col += 1;
            }
            assert((row + 1) * grid.width == row * grid.width + grid.width) by (nonlinear_arith);
            row += 1;
        }
        assert(row * grid.width == grid.width * grid.height) by (nonlinear_arith)
            requires
                row == grid.height,
        ;
        assert(next@ =~= grid.step().cells);
        self.cells = next;
    }
}

impl Clone for Universe {
    /// A second universe that holds the same grid.
    fn clone(&self) -> (copy: Universe)
        ensures
            copy@ == self@,
    {
        proof {
            use_type_invariant(self);
        }
        let cells = self.cells.clone();
        assert(cells@ =~= self.cells@);
        Universe { width: self.width, height: self.height, cells }
    }
}

} // verus!
