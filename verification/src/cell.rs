//! The state of one cell and the rule that decides its next state.

use vstd::prelude::*;

verus! {

/// The state of one cell of the grid.
#[derive(Clone, Copy, Debug, PartialEq, Eq, Structural)]
pub enum Cell {
    Dead,
    Alive,
}

/// The state a cell takes in the next generation, given its current state
/// and the number of live cells around it.
///
/// The branches are tried in this order: a live cell with fewer than two live
/// neighbours dies; a live cell with two or three stays alive; a live cell
/// with more than three dies; a dead cell with exactly three comes alive;
/// anything else keeps its state.
pub open spec fn rule(cell: Cell, live_neighbors: nat) -> Cell {
    if cell == Cell::Alive && live_neighbors < 2 {
        Cell::Dead
    } else if cell == Cell::Alive && (live_neighbors == 2 || live_neighbors == 3) {
        Cell::Alive
    } else if cell == Cell::Alive && live_neighbors > 3 {
        Cell::Dead
    } else if cell == Cell::Dead && live_neighbors == 3 {
        Cell::Alive
    } else {
        cell
    }
}

impl Cell {
    /// What the cell adds to a count of live cells: 1 if alive, 0 if dead.
    pub open spec fn weight(self) -> nat {
        match self {
            Cell::Dead => 0,
            Cell::Alive => 1,
        }
    }

    /// The cell as one byte: 0 for `Dead`, 1 for `Alive`.
    pub fn to_byte(self) -> (byte: u8)
        ensures
            byte == self.weight(),
    {
        match self {
            Cell::Dead => 0,
            Cell::Alive => 1,
        }
    }

    /// The cell's state in the next generation, when `live_neighbors` of the
    /// cells around it are alive.
    pub fn next_state(self, live_neighbors: u8) -> (next: Cell)
        ensures
            next == rule(self, live_neighbors as nat),
    {
        match self {
            Cell::Alive => {
                if live_neighbors < 2 {
                    Cell::Dead
                } else if live_neighbors <= 3 {
                    Cell::Alive
                } else {
                    Cell::Dead
                }
            },
            Cell::Dead => {
                if live_neighbors == 3 {
                    Cell::Alive
                } else {
                    Cell::Dead
                }
            },
        }
    }
}

/// The rule in one line: a cell is alive in the next generation exactly when
/// it has three live neighbours, or is alive and has two.
pub proof fn lemma_rule_alive_iff(cell: Cell, live_neighbors: nat)
    ensures
        rule(cell, live_neighbors) == Cell::Alive <==> (live_neighbors == 3 || (cell == Cell::Alive
            && live_neighbors == 2)),
        rule(cell, live_neighbors) == Cell::Dead <==> !(live_neighbors == 3 || (cell == Cell::Alive
            && live_neighbors == 2)),
{
}

/// The rule on each of the eighteen inputs that a grid can give it: either
/// state, with zero to eight live neighbours.
pub proof fn lemma_rule_table()
    ensures
        rule(Cell::Alive, 0) == Cell::Dead,
        rule(Cell::Alive, 1) == Cell::Dead,
        rule(Cell::Alive, 2) == Cell::Alive,
        rule(Cell::Alive, 3) == Cell::Alive,
        rule(Cell::Alive, 4) == Cell::Dead,
        rule(Cell::Alive, 5) == Cell::Dead,
        rule(Cell::Alive, 6) == Cell::Dead,
        rule(Cell::Alive, 7) == Cell::Dead,
        rule(Cell::Alive, 8) == Cell::Dead,
        rule(Cell::Dead, 0) == Cell::Dead,
        rule(Cell::Dead, 1) == Cell::Dead,
        rule(Cell::Dead, 2) == Cell::Dead,
        rule(Cell::Dead, 3) == Cell::Alive,
        rule(Cell::Dead, 4) == Cell::Dead,
        rule(Cell::Dead, 5) == Cell::Dead,
        rule(Cell::Dead, 6) == Cell::Dead,
        rule(Cell::Dead, 7) == Cell::Dead,
        rule(Cell::Dead, 8) == Cell::Dead,
{
}

} // verus!
