//! Conway's Game of Life on a bounded grid.
//!
//! The grid has hard edges: positions beyond them hold no cell and count as
//! dead. A [`Board`] owns the cells, [`Board::next`] computes one generation
//! from the previous one, and a [`GameboardController`] advances its board by
//! one generation whenever enough time has accumulated.

pub mod board;
pub mod cell;
pub mod controller;
mod entropy;
pub mod grid;
pub mod lemmas;
pub mod offsets;
mod store;
mod text;

pub use board::Board;
pub use cell::Cell;
pub use controller::GameboardController;
pub use grid::Grid;
