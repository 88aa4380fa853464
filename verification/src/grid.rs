//! The grid: cell storage and the row-major coordinate/index mapping.
//!
//! The grid owns geometry and storage only; wrapping out-of-range
//! coordinates into range is its callers' responsibility.

use vstd::prelude::*;
use crate::cell::{Cell, Coordinate};

verus! {

/// The row-major linear index of the position `(x, y)`.
pub open spec fn spec_index_of(width: int, x: int, y: int) -> int {
    x + width * y
}

/// The column of the position with linear index `index`.
pub open spec fn spec_x_of(width: int, index: int) -> int {
    index % width
}

/// The row of the position with linear index `index`.
pub open spec fn spec_y_of(width: int, index: int) -> int {
    index / width
}

/// A fixed-size grid of cells, stored in row-major order: the cell at
/// `(x, y)` lives at linear index `x + width * y`.
#[derive(Clone)]
pub struct Grid {
    width: u32,
    height: u32,
    cells: Vec<Cell>,
}

impl View for Grid {
    type V = Seq<Cell>;

    closed spec fn view(&self) -> Seq<Cell> {
        self.cells@
    }
}

impl Grid {
    pub closed spec fn spec_width(&self) -> u32 {
        self.width
    }

    pub closed spec fn spec_height(&self) -> u32 {
        self.height
    }

    /// The grid invariant: both dimensions are positive, every linear index
    /// fits in a `u32`, and the storage holds exactly `width * height` cells.
    pub open spec fn well_formed(&self) -> bool {
        &&& 0 < self.spec_width()
        &&& 0 < self.spec_height()
        &&& self.spec_width() as int * self.spec_height() as int <= u32::MAX as int
        &&& self@.len() == self.spec_width() as int * self.spec_height() as int
    }

    /// Builds a grid from its dimensions and a storage vector of exactly
    /// `width * height` cells.
    pub fn from_cells(width: u32, height: u32, cells: Vec<Cell>) -> (g: Grid)
        requires
            0 < width,
            0 < height,
            width as int * height as int <= u32::MAX as int,
            cells@.len() == width as int * height as int,
        ensures
            g.well_formed(),
            g.spec_width() == width,
            g.spec_height() == height,
            g@ == cells@,
    {
        Grid { width, height, cells }
    }

    pub fn width(&self) -> (w: u32)
        ensures
            w == self.spec_width(),
    {
        self.width
    }

    pub fn height(&self) -> (h: u32)
        ensures
            h == self.spec_height(),
    {
        self.height
    }

    /// The linear index of a coordinate already reduced into
    /// `[0, width) x [0, height)`: `x + width * y`, which is always a valid
    /// index into the storage.
    pub fn index_of(&self, coord: Coordinate) -> (index: u32)
        requires
            self.well_formed(),
            coord.x < self.spec_width(),
            coord.y < self.spec_height(),
        ensures
            index == spec_index_of(self.spec_width() as int, coord.x as int, coord.y as int),
            index < self.spec_width() as int * self.spec_height() as int,
    {
        proof {
            lemma_index_in_range(
                self.spec_width() as int,
                self.spec_height() as int,
                coord.x as int,
                coord.y as int,
            );
        }
        coord.x + self.width * coord.y
    }

    /// The inverse of `index_of`: the coordinate `(index % width, index / width)`.
    pub fn coord_of(&self, index: u32) -> (coord: Coordinate)
        requires
            self.well_formed(),
            index < self.spec_width() as int * self.spec_height() as int,
        ensures
            coord.x == spec_x_of(self.spec_width() as int, index as int),
            coord.y == spec_y_of(self.spec_width() as int, index as int),
            coord.x < self.spec_width(),
            coord.y < self.spec_height(),
            spec_index_of(self.spec_width() as int, coord.x as int, coord.y as int) == index,
    {
        proof {
            lemma_coord_in_range(
                self.spec_width() as int,
                self.spec_height() as int,
                index as int,
            );
        }
        Coordinate { x: index % self.width, y: index / self.width }
    }

    /// Reads the cell at a coordinate already reduced into range.
    pub fn get(&self, coord: Coordinate) -> (cell: Cell)
        requires
            self.well_formed(),
            coord.x < self.spec_width(),
            coord.y < self.spec_height(),
        ensures
            cell == self@[spec_index_of(self.spec_width() as int, coord.x as int, coord.y as int)],
    {
        let index = self.index_of(coord);
        self.cells[index as usize]
    }

    /// Writes the cell at a coordinate already reduced into range.
    pub fn set(&mut self, coord: Coordinate, cell: Cell)
        requires
            old(self).well_formed(),
            coord.x < old(self).spec_width(),
            coord.y < old(self).spec_height(),
        ensures
            final(self).well_formed(),
            final(self).spec_width() == old(self).spec_width(),
            final(self).spec_height() == old(self).spec_height(),
            final(self)@ == old(self)@.update(
                spec_index_of(old(self).spec_width() as int, coord.x as int, coord.y as int),
                cell,
            ),
    {
        let index = self.index_of(coord);
        self.cells[index as usize] = cell;
    }
}

/// Every in-range coordinate maps to an index below `width * height`.
pub proof fn lemma_index_in_range(width: int, height: int, x: int, y: int)
    requires
        0 < width,
        0 < height,
        0 <= x < width,
        0 <= y < height,
    ensures
        0 <= spec_index_of(width, x, y) < width * height,
{
    assert(x + width * y <= (width - 1) + width * (height - 1)) by (nonlinear_arith)
        requires
            0 < width,
            0 < height,
            x <= width - 1,
            y <= height - 1,
    ;
    assert((width - 1) + width * (height - 1) == width * height - 1) by (nonlinear_arith);
}

/// Every index below `width * height` maps to an in-range coordinate,
/// and mapping the coordinate back yields the same index.
pub proof fn lemma_coord_in_range(width: int, height: int, index: int)
    requires
        0 < width,
        0 < height,
        0 <= index < width * height,
    ensures
        0 <= spec_x_of(width, index) < width,
        0 <= spec_y_of(width, index) < height,
        spec_index_of(width, spec_x_of(width, index), spec_y_of(width, index)) == index,
{
    vstd::arithmetic::div_mod::lemma_fundamental_div_mod(index, width);
    assert(0 <= index % width < width) by (nonlinear_arith)
        requires
            0 < width,
            0 <= index,
    ;
    assert(0 <= index / width < height) by (nonlinear_arith)
        requires
            0 < width,
            0 <= index < width * height,
            index == width * (index / width) + index % width,
            0 <= index % width < width,
    ;
}

} // verus!
