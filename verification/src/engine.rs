//! The simulation engine: seeding, toroidal neighbor resolution, and the
//! one-generation advance under the B3/S23 rule.

use vstd::prelude::*;
use crate::cell::{next_cell, next_state, Cell, Coordinate};
use crate::grid::{spec_index_of, spec_x_of, spec_y_of, Grid};

verus! {

/// The deterministic initial pattern: linear index `i` starts `Alive`
/// exactly when `i % 2 == 0` or `i % 7 == 0`. The pattern carries no
/// meaning beyond being reproducible and visually non-trivial.
pub open spec fn seed_cell(i: int) -> Cell {
    if i % 2 == 0 || i % 7 == 0 {
        Cell::Alive
    } else {
        Cell::Dead
    }
}

/// The whole seeded generation for a `width x height` grid.
pub open spec fn seed_grid(width: int, height: int) -> Seq<Cell> {
    Seq::new((width * height) as nat, |i: int| seed_cell(i))
}

/// The row above `row`, wrapping to the bottom edge at the top edge.
pub open spec fn north_of(row: int, height: int) -> int {
    if row == 0 {
        height - 1
    } else {
        row - 1
    }
}

/// The row below `row`, wrapping to the top edge at the bottom edge.
pub open spec fn south_of(row: int, height: int) -> int {
    if row == height - 1 {
        0
    } else {
        row + 1
    }
}

/// The column left of `col`, wrapping to the right edge at the left edge.
pub open spec fn west_of(col: int, width: int) -> int {
    if col == 0 {
        width - 1
    } else {
        col - 1
    }
}

/// The column right of `col`, wrapping to the left edge at the right edge.
pub open spec fn east_of(col: int, width: int) -> int {
    if col == width - 1 {
        0
    } else {
        col + 1
    }
}

/// 1 if the cell at `(col, row)` of a row-major grid is alive, else 0.
pub open spec fn alive_at(cells: Seq<Cell>, width: int, row: int, col: int) -> int {
    if cells[spec_index_of(width, col, row)] is Alive {
        1
    } else {
        0
    }
}

/// The number of live cells among the eight toroidal neighbors of
/// `(row, col)`: one step in each direction with wraparound at the grid
/// boundary, each neighbor counted once, never the cell itself.
pub open spec fn spec_live_neighbor_count(
    cells: Seq<Cell>,
    width: int,
    height: int,
    row: int,
    col: int,
) -> int {
    let n = north_of(row, height);
    let s = south_of(row, height);
    let w = west_of(col, width);
    let e = east_of(col, width);
    alive_at(cells, width, n, w) + alive_at(cells, width, n, col) + alive_at(cells, width, n, e)
        + alive_at(cells, width, row, w) + alive_at(cells, width, row, e)
        + alive_at(cells, width, s, w) + alive_at(cells, width, s, col) + alive_at(
        cells,
        width,
        s,
        e,
    )
}

/// One whole generation step: every cell of the next generation is the
/// rule applied to that cell's pre-step state and its pre-step
/// live-neighbor count. No cell's update observes another cell's
/// already-updated state.
pub open spec fn spec_step(cells: Seq<Cell>, width: int, height: int) -> Seq<Cell> {
    Seq::new(
        cells.len(),
        |i: int|
            next_state(
                cells[i],
                spec_live_neighbor_count(cells, width, height, spec_y_of(width, i), spec_x_of(width, i)),
            ),
    )
}

/// `n` generation steps in a row from `cells`.
pub open spec fn spec_run(cells: Seq<Cell>, width: int, height: int, n: nat) -> Seq<Cell>
    decreases n,
{
    if n == 0 {
        cells
    } else {
        spec_step(spec_run(cells, width, height, (n - 1) as nat), width, height)
    }
}

/// The simulation engine. It exclusively owns its grid; callers observe
/// the grid only through `cell_at` and the coordinate helpers.
#[derive(Clone)]
pub struct Universe {
    grid: Grid,
}

impl View for Universe {
    type V = Seq<Cell>;

    closed spec fn view(&self) -> Seq<Cell> {
        self.grid@
    }
}

impl Universe {
    pub closed spec fn spec_width(&self) -> u32 {
        self.grid.spec_width()
    }

    pub closed spec fn spec_height(&self) -> u32 {
        self.grid.spec_height()
    }

    pub open spec fn well_formed(&self) -> bool {
        &&& 0 < self.spec_width()
        &&& 0 < self.spec_height()
        &&& self.spec_width() as int * self.spec_height() as int <= u32::MAX as int
        &&& self@.len() == self.spec_width() as int * self.spec_height() as int
    }

    /// Constructs an engine over a freshly seeded `width x height` grid.
    /// A zero dimension is rejected at construction: the result is `None`
    /// exactly when `width == 0` or `height == 0`.
    pub fn new(width: u32, height: u32) -> (r: Option<Universe>)
        requires
            width as int * height as int <= u32::MAX as int,
        ensures
            r is Some <==> (0 < width && 0 < height),
            r matches Some(u) ==> {
                &&& u.well_formed()
                &&& u.spec_width() == width
                &&& u.spec_height() == height
                &&& u@ == seed_grid(width as int, height as int)
            },
    {
        if width == 0 || height == 0 {
            return None;
        }
        let total: u32 = width * height;
        let mut cells: Vec<Cell> = Vec::new();
        let mut i: u32 = 0;
        while i < total
            invariant
                i <= total,
                cells@.len() == i as int,
                forall|j: int| 0 <= j < i as int ==> cells@[j] == seed_cell(j),
            decreases total - i,
        {
            if i % 2 == 0 || i % 7 == 0 {
                cells.push(Cell::Alive);
            } else {
                cells.push(Cell::Dead);
            }
            i = i + 1;
        }
        proof {
            assert(cells@ =~= seed_grid(width as int, height as int));
        }
        Some(Universe { grid: Grid::from_cells(width, height, cells) })
    }

    /// Wraps an existing grid in an engine, e.g. to start the simulation
    /// from a caller-chosen pattern instead of the default seed.
    pub fn from_grid(grid: Grid) -> (u: Universe)
        requires
            grid.well_formed(),
        ensures
            u.well_formed(),
            u.spec_width() == grid.spec_width(),
            u.spec_height() == grid.spec_height(),
            u@ == grid@,
    {
        Universe { grid }
    }

    pub fn width(&self) -> (w: u32)
        ensures
            w == self.spec_width(),
    {
        self.grid.width()
    }

    pub fn height(&self) -> (h: u32)
        ensures
            h == self.spec_height(),
    {
        self.grid.height()
    }

    /// Read-only query of one cell for external rendering; the coordinate
    /// must already be in range (no implicit wrapping of caller input).
    pub fn cell_at(&self, x: u32, y: u32) -> (cell: Cell)
        requires
            self.well_formed(),
            x < self.spec_width(),
            y < self.spec_height(),
        ensures
            cell == self@[spec_index_of(self.spec_width() as int, x as int, y as int)],
    {
        self.grid.get(Coordinate { x, y })
    }

    /// Overwrites one cell, e.g. to lay out a starting pattern; the
    /// coordinate must already be in range.
    pub fn set_cell(&mut self, coord: Coordinate, cell: Cell)
        requires
            old(self).well_formed(),
            coord.x < old(self).spec_width(),
            coord.y < old(self).spec_height(),
        ensures
            final(self).well_formed(),
            final(self).spec_width() == old(self).spec_width(),
            final(self).spec_height() == old(self).spec_height(),
            final(self)@ == old(self)@.update(
                spec_index_of(old(self).spec_width() as int, coord.x as int, coord.y as int),
                cell,
            ),
    {
        self.grid.set(coord, cell);
    }

    /// The linear index of an in-range coordinate.
    pub fn index_from_coord(&self, coord: Coordinate) -> (index: u32)
        requires
            self.well_formed(),
            coord.x < self.spec_width(),
            coord.y < self.spec_height(),
        ensures
            index == spec_index_of(self.spec_width() as int, coord.x as int, coord.y as int),
            index < self.spec_width() as int * self.spec_height() as int,
    {
        self.grid.index_of(coord)
    }

    /// The linear index of an in-range coordinate.
    pub fn get_index(&self, coord: Coordinate) -> (index: u32)
        requires
            self.well_formed(),
            coord.x < self.spec_width(),
            coord.y < self.spec_height(),
        ensures
            index == spec_index_of(self.spec_width() as int, coord.x as int, coord.y as int),
            index < self.spec_width() as int * self.spec_height() as int,
    {
        self.grid.index_of(coord)
    }

    /// The coordinate of a valid linear index.
    pub fn coord_from_index(&self, index: u32) -> (coord: Coordinate)
        requires
            self.well_formed(),
            index < self.spec_width() as int * self.spec_height() as int,
        ensures
            coord.x == spec_x_of(self.spec_width() as int, index as int),
            coord.y == spec_y_of(self.spec_width() as int, index as int),
            coord.x < self.spec_width(),
            coord.y < self.spec_height(),
            spec_index_of(self.spec_width() as int, coord.x as int, coord.y as int) == index,
    {
        self.grid.coord_of(index)
    }

    /// The eight toroidal neighbors of an in-range coordinate, obtained by
    /// stepping one row and/or column in each direction with wraparound at
    /// the boundary.
    pub fn neighbors(&self, coord: Coordinate) -> (r: [Coordinate; 8])
        requires
            self.well_formed(),
            coord.x < self.spec_width(),
            coord.y < self.spec_height(),
        ensures
            r@ == spec_neighbors(
                self.spec_width() as int,
                self.spec_height() as int,
                coord.y as int,
                coord.x as int,
            ),
    {
        let north: u32 = if coord.y == 0 {
            self.grid.height() - 1
        } else {
            coord.y - 1
        };
        let south: u32 = if coord.y == self.grid.height() - 1 {
            0
        } else {
            coord.y + 1
        };
        let west: u32 = if coord.x == 0 {
            self.grid.width() - 1
        } else {
            coord.x - 1
        };
        let east: u32 = if coord.x == self.grid.width() - 1 {
            0
        } else {
            coord.x + 1
        };
        let r = [
            Coordinate { x: west, y: north },
            Coordinate { x: coord.x, y: north },
            Coordinate { x: east, y: north },
            Coordinate { x: west, y: coord.y },
            Coordinate { x: east, y: coord.y },
            Coordinate { x: west, y: south },
            Coordinate { x: coord.x, y: south },
            Coordinate { x: east, y: south },
        ];
        proof {
            assert(r@ =~= spec_neighbors(
                self.spec_width() as int,
                self.spec_height() as int,
                coord.y as int,
                coord.x as int,
            ));
        }
        r
    }

    /// The live-neighbor count of the in-range cell at `(row, column)`,
    /// always between 0 and 8.
    pub fn live_neighbor_count(&self, row: u32, column: u32) -> (count: u8)
        requires
            self.well_formed(),
            row < self.spec_height(),
            column < self.spec_width(),
        ensures
            count == spec_live_neighbor_count(
                self@,
                self.spec_width() as int,
                self.spec_height() as int,
                row as int,
                column as int,
            ),
            count <= 8,
    {
        let north: u32 = if row == 0 {
            self.grid.height() - 1
        } else {
            row - 1
        };
        let south: u32 = if row == self.grid.height() - 1 {
            0
        } else {
            row + 1
        };
        let west: u32 = if column == 0 {
            self.grid.width() - 1
        } else {
            column - 1
        };
        let east: u32 = if column == self.grid.width() - 1 {
            0
        } else {
            column + 1
        };
        let mut count: u8 = 0;
        if matches!(self.grid.get(Coordinate { x: west, y: north }), Cell::Alive) {
            count = count + 1;
        }
        if matches!(self.grid.get(Coordinate { x: column, y: north }), Cell::Alive) {
            count = count + 1;
        }
        if matches!(self.grid.get(Coordinate { x: east, y: north }), Cell::Alive) {
            count = count + 1;
        }
        if matches!(self.grid.get(Coordinate { x: west, y: row }), Cell::Alive) {
            count = count + 1;
        }
        if matches!(self.grid.get(Coordinate { x: east, y: row }), Cell::Alive) {
            count = count + 1;
        }
        if matches!(self.grid.get(Coordinate { x: west, y: south }), Cell::Alive) {
            count = count + 1;
        }
        if matches!(self.grid.get(Coordinate { x: column, y: south }), Cell::Alive) {
            count = count + 1;
        }
        if matches!(self.grid.get(Coordinate { x: east, y: south }), Cell::Alive) {
            count = count + 1;
        }
        count
    }

    /// Advances the grid by exactly one generation: every cell's next
    /// state is the rule applied to its pre-tick state and pre-tick
    /// live-neighbor count, committed atomically as a whole new
    /// generation (double-buffering; a half-computed generation is never
    /// observable).
    pub fn tick(&mut self)
        requires
            old(self).well_formed(),
        ensures
            final(self).well_formed(),
            final(self).spec_width() == old(self).spec_width(),
            final(self).spec_height() == old(self).spec_height(),
            final(self)@ == spec_step(
                old(self)@,
                old(self).spec_width() as int,
                old(self).spec_height() as int,
            ),
    {
        let width = self.grid.width();
        let height = self.grid.height();
        let total: u32 = width * height;
        let mut next: Vec<Cell> = Vec::new();
        let mut i: u32 = 0;
        while i < total
            invariant
                *self == *old(self),
                self.well_formed(),
                width == self.spec_width(),
                height == self.spec_height(),
                total == width as int * height as int,
                i <= total,
                next@.len() == i as int,
                forall|j: int| 0 <= j < i as int ==> next@[j] == spec_step(
                    self@,
                    width as int,
                    height as int,
                )[j],
            decreases total - i,
        {
            let coord = self.grid.coord_of(i);
            let current = self.grid.get(coord);
            let live_neighbors = self.live_neighbor_count(coord.y, coord.x);
            next.push(next_cell(current, live_neighbors));
            i = i + 1;
        }
        proof {
            assert(next@ =~= spec_step(
                self@,
                self.spec_width() as int,
                self.spec_height() as int,
            ));
        }
        self.grid = Grid::from_cells(width, height, next);
    }
}

/// The eight toroidal neighbor coordinates of `(row, col)`, in the order
/// north-west, north, north-east, west, east, south-west, south, south-east.
pub open spec fn spec_neighbors(width: int, height: int, row: int, col: int) -> Seq<Coordinate> {
    let n = north_of(row, height) as u32;
    let s = south_of(row, height) as u32;
    let w = west_of(col, width) as u32;
    let e = east_of(col, width) as u32;
    seq![
        (Coordinate { x: w, y: n }),
        (Coordinate { x: col as u32, y: n }),
        (Coordinate { x: e, y: n }),
        (Coordinate { x: w, y: row as u32 }),
        (Coordinate { x: e, y: row as u32 }),
        (Coordinate { x: w, y: s }),
        (Coordinate { x: col as u32, y: s }),
        (Coordinate { x: e, y: s }),
    ]
}

} // verus!
