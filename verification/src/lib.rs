//! A two-dimensional cellular-automaton engine: Conway's Game of Life on a
//! toroidal (wrap-around) grid.
//!
//! The crate is split into a leaf `grid` component, which owns the cell
//! storage and the coordinate/index mapping, and an `engine` component,
//! which owns a grid, counts live neighbors with toroidal wraparound, and
//! advances the whole grid one generation per call under the classical
//! B3/S23 rule. The `laws` module states and proves the global properties
//! that the engine guarantees.

pub mod cell;
pub mod engine;
pub mod grid;
pub mod laws;
