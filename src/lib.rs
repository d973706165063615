//! Conway's Game of Life on a flat, row-major grid of booleans with
//! non-wrapping edges: neighbour counting, the one-step rule, and a small
//! owner type for the grid.

pub mod neighbours;
pub mod step;
pub mod grid;
