//! Solver for the "two bombs" covering puzzle on a square grid.

pub mod coord;
pub mod coord_set;
pub mod errors;
pub mod search;
pub mod terminal;
pub mod text;
pub mod twobombs;
