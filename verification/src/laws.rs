//! General facts about the grid model.

use vstd::prelude::*;
use crate::cell::Cell;
use crate::grid::{Grid, lemma_wrap, ring_next, ring_prev};

verus! {

/// On a grid with at least two rows and two columns the live neighbours of a
/// cell are the live cells among the eight around it, where the row before
/// row 0 is the last row, the row after the last row is row 0, and the same
/// for columns.
pub proof fn lemma_neighbors_on_torus(grid: Grid, row: int, col: int)
    requires
        grid.wf(),
        grid.width >= 2,
        grid.height >= 2,
        grid.contains(row, col),
    ensures
        grid.live_neighbors(row, col) == ({
            let up = ring_prev(row, grid.height as int);
            let down = ring_next(row, grid.height as int);
            let left = ring_prev(col, grid.width as int);
            let right = ring_next(col, grid.width as int);
            grid.at(up, left).weight() + grid.at(up, col).weight() + grid.at(up, right).weight()
                + grid.at(row, left).weight() + grid.at(row, right).weight() + grid.at(
                down,
                left,
            ).weight() + grid.at(down, col).weight() + grid.at(down, right).weight()
        }),
        grid.live_neighbors(row, col) <= 8,
{
    lemma_wrap(row, grid.height as int);
    lemma_wrap(col, grid.width as int);
}

/// On a grid with a single row and at least two columns, the cell before and
/// the cell after each count three times, and the cell itself once.
pub proof fn lemma_neighbors_in_single_row(grid: Grid, col: int)
    requires
        grid.wf(),
        grid.height == 1,
        grid.width >= 2,
        grid.contains(0, col),
    ensures
        grid.live_neighbors(0, col) == 3 * grid.at(
            0,
            ring_prev(col, grid.width as int),
        ).weight() + grid.at(0, col).weight() + 3 * grid.at(
            0,
            ring_next(col, grid.width as int),
        ).weight(),
{
    lemma_wrap(0, 1);
    lemma_wrap(col, grid.width as int);
}

/// On a grid with a single column and at least two rows, the cell above and
/// the cell below each count three times, and the cell itself once.
pub proof fn lemma_neighbors_in_single_column(grid: Grid, row: int)
    requires
        grid.wf(),
        grid.width == 1,
        grid.height >= 2,
        grid.contains(row, 0),
    ensures
        grid.live_neighbors(row, 0) == 3 * grid.at(
            ring_prev(row, grid.height as int),
            0,
        ).weight() + grid.at(row, 0).weight() + 3 * grid.at(
            ring_next(row, grid.height as int),
            0,
        ).weight(),
{
    lemma_wrap(row, grid.height as int);
    lemma_wrap(0, 1);
}

/// On the grid of one cell, the cell counts five times as its own
/// neighbour: it is dead in the next generation.
pub proof fn lemma_neighbors_of_single_cell(grid: Grid)
    requires
        grid.wf(),
        grid.width == 1,
        grid.height == 1,
    ensures
        grid.live_neighbors(0, 0) == 5 * grid.at(0, 0).weight(),
        grid.step().at(0, 0) == Cell::Dead,
{
    lemma_wrap(0, 1);
    grid.lemma_step_at(0, 0);
}

/// Whether `(row, col)` lies in the block of two rows and two columns whose
/// upper left corner is `(top, left)`. The block wraps at the edges of the
/// grid.
pub open spec fn in_block(grid: Grid, top: int, left: int, row: int, col: int) -> bool {
    &&& row == top || row == ring_next(top, grid.height as int)
    &&& col == left || col == ring_next(left, grid.width as int)
}

/// Whether the live cells of `grid` are exactly the four cells of the block
/// whose upper left corner is `(top, left)`.
pub open spec fn is_lone_block(grid: Grid, top: int, left: int) -> bool {
    &&& grid.contains(top, left)
    &&& forall|row: int, col: int| #![trigger grid.at(row, col)]
        grid.contains(row, col) ==> (grid.at(row, col) == Cell::Alive <==> in_block(
            grid,
            top,
            left,
            row,
            col,
        ))
}

/// A block of four live cells, alone on a grid of at least four rows and
/// four columns, is the same in the next generation.
pub proof fn lemma_block_is_still(grid: Grid, top: int, left: int)
    requires
        grid.wf(),
        grid.width >= 4,
        grid.height >= 4,
        is_lone_block(grid, top, left),
    ensures
        grid.step() == grid,
{
    let w = grid.width as int;
    let h = grid.height as int;
    assert forall|i: int| 0 <= i < grid.cells.len() implies grid.next_cell(i) == grid.cells[i] by {
        let row = i / w;
        let col = i % w;
        grid.lemma_position(i);
        lemma_wrap(row, h);
        lemma_wrap(col, w);
        lemma_wrap(top, h);
        lemma_wrap(left, w);
        assert(grid.at(row, col) == grid.cells[i]);
    }
    assert(grid.step().cells =~= grid.cells);
}

/// A block of four live cells, alone on a grid of at least four rows and
/// four columns, is the same after any number of generations.
pub proof fn lemma_block_stays_still(grid: Grid, top: int, left: int, generations: nat)
    requires
        grid.wf(),
        grid.width >= 4,
        grid.height >= 4,
        is_lone_block(grid, top, left),
    ensures
        grid.after(generations) == grid,
    decreases generations,
{
    if generations > 0 {
        lemma_block_stays_still(grid, top, left, (generations - 1) as nat);
        lemma_block_is_still(grid, top, left);
    }
}

/// Whether `history` is what a universe holds from its construction with
/// the default pattern on: first the seeded grid, then the grid after each
/// generation.
pub open spec fn is_history(history: Seq<Grid>, width: nat, height: nat) -> bool {
    &&& history.len() >= 1
    &&& history[0] == Grid::seeded(width, height)
    &&& forall|i: int|
        0 <= i < history.len() - 1 ==> history[i + 1] == (#[trigger] history[i]).step()
}

/// Two universes built with the same dimensions hold the same grid after
/// the same number of generations: the generation is fixed by the
/// dimensions and the number of steps.
pub proof fn lemma_histories_agree(
    first: Seq<Grid>,
    second: Seq<Grid>,
    width: nat,
    height: nat,
    generation: nat,
)
    requires
        is_history(first, width, height),
        is_history(second, width, height),
        generation < first.len(),
        generation < second.len(),
    ensures
        first[generation as int] == Grid::seeded(width, height).after(generation),
        first[generation as int] == second[generation as int],
    decreases generation,
{
    if generation > 0 {
        lemma_histories_agree(first, second, width, height, (generation - 1) as nat);
        assert(first[generation - 1 + 1] == first[generation - 1].step());
        assert(second[generation - 1 + 1] == second[generation - 1].step());
    }
}

} // verus!
