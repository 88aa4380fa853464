//! The two-valued cell state and the classical B3/S23 transition rule.

use vstd::prelude::*;

verus! {

/// A cell is either `Alive` or `Dead`; it is a pure value with no identity
/// beyond its grid position.
#[derive(Clone, Copy, PartialEq, Eq, Structural, Debug)]
pub enum Cell {
    Dead,
    Alive,
}

/// A grid position `(x, y)` with `x` in `[0, width)` and `y` in `[0, height)`.
/// `x` selects the column and `y` the row.
#[derive(Clone, Copy, PartialEq, Eq, Structural, Debug)]
pub struct Coordinate {
    pub x: u32,
    pub y: u32,
}

/// The classical Game-of-Life rule (B3/S23): a live cell survives with two
/// or three live neighbors, a dead cell is born with exactly three, and
/// every other cell is dead in the next generation.
pub open spec fn next_state(current: Cell, live_neighbors: int) -> Cell {
    match current {
        Cell::Alive => if live_neighbors == 2 || live_neighbors == 3 {
            Cell::Alive
        } else {
            Cell::Dead
        },
        Cell::Dead => if live_neighbors == 3 {
            Cell::Alive
        } else {
            Cell::Dead
        },
    }
}

/// Evaluates the B3/S23 rule table on a cell and its live-neighbor count.
pub fn next_cell(current: Cell, live_neighbors: u8) -> (next: Cell)
    ensures
        next == next_state(current, live_neighbors as int),
{
    match current {
        Cell::Alive => {
            if live_neighbors < 2 {
                Cell::Dead
            } else if live_neighbors == 2 || live_neighbors == 3 {
                Cell::Alive
            } else {
                Cell::Dead
            }
        },
        Cell::Dead => {
            if live_neighbors == 3 {
                Cell::Alive
            } else {
                Cell::Dead
            }
        },
    }
}

} // verus!
