//! Conway's Game of Life on a fixed-size toroidal grid.
//!
//! The crate has three layers:
//!
//! * [`cell`] holds the two-valued cell state and the transition rule;
//! * [`grid`] is the mathematical model: a grid as a sequence of cells, the
//!   neighbour count on the torus and the generation step as spec functions;
//! * [`universe`] is the executable grid, whose contracts are stated over the
//!   model.
//!
//! [`laws`] proves general facts about the model.

pub mod cell;
pub mod grid;
pub mod laws;
pub mod universe;

pub use cell::Cell;
pub use grid::Grid;
pub use universe::{Universe, UniverseError};
