//! The global laws of the engine, stated and proved once for all inputs:
//! the coordinate/index bijection, the neighbor-count range, determinism,
//! generation isolation, and the block still life.

use vstd::prelude::*;
use vstd::arithmetic::div_mod::lemma_fundamental_div_mod_converse;
use crate::cell::{next_state, Cell};
use crate::engine::{
    alive_at, spec_live_neighbor_count, spec_run, spec_step, Universe,
};
use crate::grid::{
    lemma_coord_in_range, lemma_index_in_range, spec_index_of, spec_x_of, spec_y_of,
};

verus! {

/// Bijection, one direction: for every linear index `i` in
/// `[0, width * height)`, mapping `i` to its coordinate and back yields `i`,
/// and the coordinate is in range.
pub proof fn lemma_index_of_coord_of(width: int, height: int, index: int)
    requires
        0 < width,
        0 < height,
        0 <= index < width * height,
    ensures
        0 <= spec_x_of(width, index) < width,
        0 <= spec_y_of(width, index) < height,
        spec_index_of(width, spec_x_of(width, index), spec_y_of(width, index)) == index,
{
    lemma_coord_in_range(width, height, index);
}

/// Bijection, the other direction: for every in-range coordinate `(x, y)`,
/// mapping it to its linear index and back yields `(x, y)`, and the index
/// is in `[0, width * height)`.
pub proof fn lemma_coord_of_index_of(width: int, height: int, x: int, y: int)
    requires
        0 < width,
        0 < height,
        0 <= x < width,
        0 <= y < height,
    ensures
        0 <= spec_index_of(width, x, y) < width * height,
        spec_x_of(width, spec_index_of(width, x, y)) == x,
        spec_y_of(width, spec_index_of(width, x, y)) == y,
{
    lemma_index_in_range(width, height, x, y);
    assert(x + width * y == y * width + x) by (nonlinear_arith);
    lemma_fundamental_div_mod_converse(x + width * y, width, y, x);
}

/// Every cell's live-neighbor count lies in `[0, 8]`: each of the eight
/// neighbor positions contributes exactly 1 if alive and 0 if dead.
pub proof fn lemma_neighbor_count_range(
    cells: Seq<Cell>,
    width: int,
    height: int,
    row: int,
    col: int,
)
    ensures
        0 <= spec_live_neighbor_count(cells, width, height, row, col) <= 8,
{
}

/// Generation isolation: the next state of every cell is a function of the
/// pre-tick generation alone — its own pre-tick state and its pre-tick
/// live-neighbor count. No cell's update observes another cell's updated
/// state, so mutating a copy of the pre-tick grid, or reordering the
/// iteration over cells within one tick, cannot change the result.
pub proof fn lemma_generation_isolation(cells: Seq<Cell>, width: int, height: int, i: int)
    requires
        0 <= i < cells.len(),
    ensures
        spec_step(cells, width, height)[i] == next_state(
            cells[i],
            spec_live_neighbor_count(
                cells,
                width,
                height,
                spec_y_of(width, i),
                spec_x_of(width, i),
            ),
        ),
{
}

/// Determinism: two engines over identical generations, with identical
/// dimensions, are identical after any number of further generations.
pub proof fn lemma_determinism(u1: Universe, u2: Universe, n: nat)
    requires
        u1@ == u2@,
        u1.spec_width() == u2.spec_width(),
        u1.spec_height() == u2.spec_height(),
    ensures
        spec_run(u1@, u1.spec_width() as int, u1.spec_height() as int, n) == spec_run(
            u2@,
            u2.spec_width() as int,
            u2.spec_height() as int,
            n,
        ),
{
}

/// A `width x height` grid whose cell at `(row, col)` is alive exactly
/// where `live(row, col)` holds.
pub open spec fn pattern_grid(width: int, height: int, live: spec_fn(int, int) -> bool) -> Seq<
    Cell,
> {
    Seq::new(
        (width * height) as nat,
        |i: int|
            if live(spec_y_of(width, i), spec_x_of(width, i)) {
                Cell::Alive
            } else {
                Cell::Dead
            },
    )
}

/// In a pattern grid, the cell at an in-range `(row, col)` is alive exactly
/// where the pattern says so.
proof fn lemma_pattern_alive_at(
    width: int,
    height: int,
    live: spec_fn(int, int) -> bool,
    row: int,
    col: int,
)
    requires
        0 < width,
        0 < height,
        0 <= row < height,
        0 <= col < width,
    ensures
        alive_at(pattern_grid(width, height, live), width, row, col) == if live(row, col) {
            1int
        } else {
            0int
        },
{
    lemma_index_in_range(width, height, col, row);
    assert(col + width * row == row * width + col) by (nonlinear_arith);
    lemma_fundamental_div_mod_converse(col + width * row, width, row, col);
}

/// Converts the eight live-neighbor terms of a pattern grid to the pattern
/// itself, for an in-range `(row, col)`.
proof fn lemma_pattern_neighbor_terms(
    width: int,
    height: int,
    live: spec_fn(int, int) -> bool,
    row: int,
    col: int,
)
    requires
        0 < width,
        0 < height,
        0 <= row < height,
        0 <= col < width,
    ensures
        ({
            let g = pattern_grid(width, height, live);
            let n = crate::engine::north_of(row, height);
            let s = crate::engine::south_of(row, height);
            let w = crate::engine::west_of(col, width);
            let e = crate::engine::east_of(col, width);
            &&& alive_at(g, width, n, w) == (if live(n, w) { 1int } else { 0int })
            &&& alive_at(g, width, n, col) == (if live(n, col) { 1int } else { 0int })
            &&& alive_at(g, width, n, e) == (if live(n, e) { 1int } else { 0int })
            &&& alive_at(g, width, row, w) == (if live(row, w) { 1int } else { 0int })
            &&& alive_at(g, width, row, e) == (if live(row, e) { 1int } else { 0int })
            &&& alive_at(g, width, s, w) == (if live(s, w) { 1int } else { 0int })
            &&& alive_at(g, width, s, col) == (if live(s, col) { 1int } else { 0int })
            &&& alive_at(g, width, s, e) == (if live(s, e) { 1int } else { 0int })
        }),
{
    let n = crate::engine::north_of(row, height);
    let s = crate::engine::south_of(row, height);
    let w = crate::engine::west_of(col, width);
    let e = crate::engine::east_of(col, width);
    lemma_pattern_alive_at(width, height, live, n, w);
    lemma_pattern_alive_at(width, height, live, n, col);
    lemma_pattern_alive_at(width, height, live, n, e);
    lemma_pattern_alive_at(width, height, live, row, w);
    lemma_pattern_alive_at(width, height, live, row, e);
    lemma_pattern_alive_at(width, height, live, s, w);
    lemma_pattern_alive_at(width, height, live, s, col);
    lemma_pattern_alive_at(width, height, live, s, e);
}

/// Whether `(row, col)` lies in the 2x2 block whose top-left corner is at
/// row `r`, column `c`.
pub open spec fn in_block(r: int, c: int, row: int, col: int) -> bool {
    (row == r || row == r + 1) && (col == c || col == c + 1)
}

/// The block membership test as a pattern, for `pattern_grid`.
pub open spec fn block_live(r: int, c: int) -> spec_fn(int, int) -> bool {
    |row: int, col: int| in_block(r, c, row, col)
}

/// A `width x height` grid that is dead everywhere except for a 2x2 block
/// of live cells with top-left corner at row `r`, column `c`.
pub open spec fn block_grid(width: int, height: int, r: int, c: int) -> Seq<Cell> {
    pattern_grid(width, height, block_live(r, c))
}

/// The block sits strictly inside the grid, at least one cell away from
/// every edge, so wraparound never connects it to itself.
pub open spec fn block_placed(width: int, height: int, r: int, c: int) -> bool {
    &&& 1 <= r && r + 1 <= height - 2
    &&& 1 <= c && c + 1 <= width - 2
}

/// In a block grid whose block is clear of the edges, every block cell has
/// exactly 3 live neighbors and every other cell has at most 2.
proof fn lemma_block_neighbor_count(
    width: int,
    height: int,
    r: int,
    c: int,
    row: int,
    col: int,
)
    requires
        block_placed(width, height, r, c),
        0 <= row < height,
        0 <= col < width,
    ensures
        in_block(r, c, row, col) ==> spec_live_neighbor_count(
            block_grid(width, height, r, c),
            width,
            height,
            row,
            col,
        ) == 3,
        !in_block(r, c, row, col) ==> spec_live_neighbor_count(
            block_grid(width, height, r, c),
            width,
            height,
            row,
            col,
        ) <= 2,
{
    lemma_pattern_neighbor_terms(width, height, block_live(r, c), row, col);
}

/// Still life: a 2x2 block of live cells clear of the grid edges, on an
/// otherwise dead grid, is unchanged by one generation step — each block
/// cell has exactly 3 live neighbors and stays alive; every other cell has
/// at most 2 and stays dead.
pub proof fn lemma_block_still_life(width: int, height: int, r: int, c: int)
    requires
        block_placed(width, height, r, c),
    ensures
        spec_step(block_grid(width, height, r, c), width, height) == block_grid(
            width,
            height,
            r,
            c,
        ),
{
    let g = block_grid(width, height, r, c);
    assert forall|i: int| 0 <= i < g.len() implies spec_step(g, width, height)[i] == g[i] by {
        lemma_coord_in_range(width, height, i);
        let row = spec_y_of(width, i);
        let col = spec_x_of(width, i);
        lemma_block_neighbor_count(width, height, r, c, row, col);
    }
    assert(spec_step(g, width, height) =~= g);
}

/// Whether `(row, col)` lies on the horizontal 3-cell line centered at
/// row `r`, column `c`.
pub open spec fn in_hline(r: int, c: int, row: int, col: int) -> bool {
    row == r && (col == c - 1 || col == c || col == c + 1)
}

/// Whether `(row, col)` lies on the vertical 3-cell line centered at
/// row `r`, column `c`.
pub open spec fn in_vline(r: int, c: int, row: int, col: int) -> bool {
    col == c && (row == r - 1 || row == r || row == r + 1)
}

/// The horizontal-line membership test as a pattern, for `pattern_grid`.
pub open spec fn hline_live(r: int, c: int) -> spec_fn(int, int) -> bool {
    |row: int, col: int| in_hline(r, c, row, col)
}

/// The vertical-line membership test as a pattern, for `pattern_grid`.
pub open spec fn vline_live(r: int, c: int) -> spec_fn(int, int) -> bool {
    |row: int, col: int| in_vline(r, c, row, col)
}

/// A grid that is dead everywhere except for a horizontal 3-cell line of
/// live cells centered at row `r`, column `c`.
pub open spec fn hline_grid(width: int, height: int, r: int, c: int) -> Seq<Cell> {
    pattern_grid(width, height, hline_live(r, c))
}

/// A grid that is dead everywhere except for a vertical 3-cell line of
/// live cells centered at row `r`, column `c`.
pub open spec fn vline_grid(width: int, height: int, r: int, c: int) -> Seq<Cell> {
    pattern_grid(width, height, vline_live(r, c))
}

/// Both phases of the blinker, and their whole one-cell border, sit clear
/// of the grid edges, so wraparound never lets the line interfere with
/// itself.
pub open spec fn blinker_placed(width: int, height: int, r: int, c: int) -> bool {
    &&& 2 <= r && r <= height - 3
    &&& 2 <= c && c <= width - 3
}

/// One cell of the horizontal blinker phase steps to the matching cell of
/// the vertical phase.
proof fn lemma_blinker_h_to_v_at(width: int, height: int, r: int, c: int, row: int, col: int)
    requires
        blinker_placed(width, height, r, c),
        0 <= row < height,
        0 <= col < width,
    ensures
        next_state(
            if in_hline(r, c, row, col) {
                Cell::Alive
            } else {
                Cell::Dead
            },
            spec_live_neighbor_count(hline_grid(width, height, r, c), width, height, row, col),
        ) == (if in_vline(r, c, row, col) {
            Cell::Alive
        } else {
            Cell::Dead
        }),
{
    lemma_pattern_neighbor_terms(width, height, hline_live(r, c), row, col);
}

/// One cell of the vertical blinker phase steps to the matching cell of
/// the horizontal phase.
proof fn lemma_blinker_v_to_h_at(width: int, height: int, r: int, c: int, row: int, col: int)
    requires
        blinker_placed(width, height, r, c),
        0 <= row < height,
        0 <= col < width,
    ensures
        next_state(
            if in_vline(r, c, row, col) {
                Cell::Alive
            } else {
                Cell::Dead
            },
            spec_live_neighbor_count(vline_grid(width, height, r, c), width, height, row, col),
        ) == (if in_hline(r, c, row, col) {
            Cell::Alive
        } else {
            Cell::Dead
        }),
{
    lemma_pattern_neighbor_terms(width, height, vline_live(r, c), row, col);
}

/// Oscillator: a horizontal 3-cell line clear of the grid edges, on an
/// otherwise dead grid, becomes the vertical 3-cell line with the same
/// center after one generation step, and returns to the horizontal line
/// after a second step.
pub proof fn lemma_blinker_oscillates(width: int, height: int, r: int, c: int)
    requires
        blinker_placed(width, height, r, c),
    ensures
        spec_step(hline_grid(width, height, r, c), width, height) == vline_grid(
            width,
            height,
            r,
            c,
        ),
        spec_step(vline_grid(width, height, r, c), width, height) == hline_grid(
            width,
            height,
            r,
            c,
        ),
        spec_run(hline_grid(width, height, r, c), width, height, 2) == hline_grid(
            width,
            height,
            r,
            c,
        ),
{
    let hg = hline_grid(width, height, r, c);
    let vg = vline_grid(width, height, r, c);
    assert forall|i: int| 0 <= i < hg.len() implies spec_step(hg, width, height)[i] == vg[i] by {
        lemma_coord_in_range(width, height, i);
        lemma_blinker_h_to_v_at(width, height, r, c, spec_y_of(width, i), spec_x_of(width, i));
    }
    assert(spec_step(hg, width, height) =~= vg);
    assert forall|i: int| 0 <= i < vg.len() implies spec_step(vg, width, height)[i] == hg[i] by {
        lemma_coord_in_range(width, height, i);
        lemma_blinker_v_to_h_at(width, height, r, c, spec_y_of(width, i), spec_x_of(width, i));
    }
    assert(spec_step(vg, width, height) =~= hg);
    assert(spec_run(hg, width, height, 0) == hg);
    assert(spec_run(hg, width, height, 1) == spec_step(hg, width, height));
    assert(spec_run(hg, width, height, 2) == spec_step(spec_run(hg, width, height, 1), width, height));
}

} // verus!
