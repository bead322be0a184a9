//! A discrete-time cellular automaton that simulates granular and fluid
//! materials (sand, water, wood) settling under gravity on a 2-D grid.
//!
//! The grid is a fixed-size store of cells; per-material movement rules are
//! applied in a fixed scan order each tick, and a paint operation writes new
//! material cells from a pointer position.

pub mod grid;
pub mod laws;
pub mod paint;
pub mod rules;

pub use grid::Cell;
pub use grid::Grid;
pub use grid::GridModel;
