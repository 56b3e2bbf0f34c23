//! Conway's Game of Life on a fixed square board: the board and its
//! generation rule, the editing/running session that drives it, and the
//! mapping between board cells and screen pixels.
pub mod geometry;
pub mod grid;
pub mod laws;
pub mod session;
