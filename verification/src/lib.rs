//! Conway's Game of Life on a finite rectangular grid.
//!
//! A [`grid::Grid`] owns a two-dimensional collection of [`cell::Cell`]
//! values, addressed by [`coordinates::Coordinates`]. Callers populate
//! selected cells and then advance the whole grid one generation at a
//! time; every operation carries a contract that pins down its result.

pub mod cell;
pub mod coordinates;
pub mod grid;

