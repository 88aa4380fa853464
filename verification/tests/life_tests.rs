//! Tests of seeding, neighbor resolution, and the generation step.

use life_engine::cell::{next_cell, Cell, Coordinate};
use life_engine::engine::Universe;

/// Builds an all-dead universe of the given dimensions.
fn dead_universe(width: u32, height: u32) -> Universe {
    let mut universe = Universe::new(width, height).unwrap();
    for y in 0..height {
        for x in 0..width {
            universe.set_cell(Coordinate { x, y }, Cell::Dead);
        }
    }
    universe
}

#[test]
fn zero_dimension_rejected() {
    assert!(Universe::new(0, 64).is_none());
    assert!(Universe::new(64, 0).is_none());
    assert!(Universe::new(0, 0).is_none());
    assert!(Universe::new(1, 1).is_some());
}

#[test]
fn dimensions_reported() {
    let universe = Universe::new(10, 4).unwrap();
    assert_eq!(universe.width(), 10);
    assert_eq!(universe.height(), 4);
}

#[test]
fn seed_pattern_formula() {
    let universe = Universe::new(8, 8).unwrap();
    for i in 0..64u32 {
        let expected = if i % 2 == 0 || i % 7 == 0 { Cell::Alive } else { Cell::Dead };
        assert_eq!(universe.cell_at(i % 8, i / 8), expected);
    }
}

#[test]
fn rule_table_exact() {
    assert_eq!(next_cell(Cell::Alive, 0), Cell::Dead);
    assert_eq!(next_cell(Cell::Alive, 1), Cell::Dead);
    assert_eq!(next_cell(Cell::Alive, 2), Cell::Alive);
    assert_eq!(next_cell(Cell::Alive, 3), Cell::Alive);
    assert_eq!(next_cell(Cell::Alive, 4), Cell::Dead);
    assert_eq!(next_cell(Cell::Alive, 8), Cell::Dead);
    assert_eq!(next_cell(Cell::Dead, 2), Cell::Dead);
    assert_eq!(next_cell(Cell::Dead, 3), Cell::Alive);
    assert_eq!(next_cell(Cell::Dead, 4), Cell::Dead);
}

#[test]
fn neighbor_count_in_range() {
    let universe = Universe::new(8, 8).unwrap();
    for row in 0..8u32 {
        for col in 0..8u32 {
            let count = universe.live_neighbor_count(row, col);
            assert!(count <= 8);
        }
    }
}

#[test]
fn neighbor_count_exact() {
    // A lone live cell: it has 0 live neighbors, each of its 8 neighbors 1.
    let mut universe = dead_universe(5, 5);
    universe.set_cell(Coordinate { x: 2, y: 2 }, Cell::Alive);
    assert_eq!(universe.live_neighbor_count(2, 2), 0);
    assert_eq!(universe.live_neighbor_count(1, 1), 1);
    assert_eq!(universe.live_neighbor_count(1, 2), 1);
    assert_eq!(universe.live_neighbor_count(3, 3), 1);
    assert_eq!(universe.live_neighbor_count(0, 0), 0);
}

#[test]
fn toroidal_corner_neighbors() {
    let universe = Universe::new(4, 4).unwrap();
    let neighbors = universe.neighbors(Coordinate { x: 0, y: 0 });
    // (row, col) pairs wrapping on both axes at once at the corner.
    let expected = [
        (3, 3),
        (3, 0),
        (3, 1),
        (0, 3),
        (0, 1),
        (1, 3),
        (1, 0),
        (1, 1),
    ];
    assert_eq!(neighbors.len(), 8);
    for (row, col) in expected {
        assert!(
            neighbors.iter().any(|n| n.y == row && n.x == col),
            "missing neighbor (row {}, col {})",
            row,
            col
        );
    }
}

#[test]
fn toroidal_count_wraps() {
    // Live cells at three corners are all neighbors of the fourth.
    let mut universe = dead_universe(4, 4);
    universe.set_cell(Coordinate { x: 0, y: 0 }, Cell::Alive);
    universe.set_cell(Coordinate { x: 3, y: 0 }, Cell::Alive);
    universe.set_cell(Coordinate { x: 0, y: 3 }, Cell::Alive);
    assert_eq!(universe.live_neighbor_count(3, 3), 3);
}

#[test]
fn still_life_block() {
    let mut universe = dead_universe(6, 6);
    for (x, y) in [(2, 2), (3, 2), (2, 3), (3, 3)] {
        universe.set_cell(Coordinate { x, y }, Cell::Alive);
    }
    universe.tick();
    for y in 0..6u32 {
        for x in 0..6u32 {
            let expected = if (2..=3).contains(&x) && (2..=3).contains(&y) {
                Cell::Alive
            } else {
                Cell::Dead
            };
            assert_eq!(universe.cell_at(x, y), expected, "cell ({}, {})", x, y);
        }
    }
}

#[test]
fn blinker_oscillates() {
    let mut universe = dead_universe(5, 5);
    for x in 1..=3u32 {
        universe.set_cell(Coordinate { x, y: 2 }, Cell::Alive);
    }
    universe.tick();
    for y in 0..5u32 {
        for x in 0..5u32 {
            let expected = if x == 2 && (1..=3).contains(&y) { Cell::Alive } else { Cell::Dead };
            assert_eq!(universe.cell_at(x, y), expected, "after one tick ({}, {})", x, y);
        }
    }
    universe.tick();
    for y in 0..5u32 {
        for x in 0..5u32 {
            let expected = if y == 2 && (1..=3).contains(&x) { Cell::Alive } else { Cell::Dead };
            assert_eq!(universe.cell_at(x, y), expected, "after two ticks ({}, {})", x, y);
        }
    }
}

#[test]
fn determinism_across_engines() {
    let mut first = Universe::new(16, 12).unwrap();
    let mut second = Universe::new(16, 12).unwrap();
    for y in 0..12u32 {
        for x in 0..16u32 {
            assert_eq!(first.cell_at(x, y), second.cell_at(x, y));
        }
    }
    for _ in 0..5 {
        first.tick();
        second.tick();
    }
    for y in 0..12u32 {
        for x in 0..16u32 {
            assert_eq!(first.cell_at(x, y), second.cell_at(x, y));
        }
    }
}

#[test]
fn generation_isolation() {
    // Mutating a copy of the pre-tick grid must not affect the tick.
    let mut universe = dead_universe(5, 5);
    for x in 1..=3u32 {
        universe.set_cell(Coordinate { x, y: 2 }, Cell::Alive);
    }
    let mut copy = universe.clone();
    copy.set_cell(Coordinate { x: 0, y: 0 }, Cell::Alive);
    copy.set_cell(Coordinate { x: 2, y: 2 }, Cell::Dead);
    universe.tick();
    for y in 0..5u32 {
        for x in 0..5u32 {
            let expected = if x == 2 && (1..=3).contains(&y) { Cell::Alive } else { Cell::Dead };
            assert_eq!(universe.cell_at(x, y), expected, "cell ({}, {})", x, y);
        }
    }
}

#[test]
fn seeded_tick_matches_hand_computation() {
    // 3x3 seeded grid: indexes 0, 2, 4, 6, 7, 8 are alive (even or
    // divisible by 7), so only index 5 and the odd non-multiples are dead.
    let mut universe = Universe::new(3, 3).unwrap();
    let alive = |i: u32| i % 2 == 0 || i % 7 == 0;
    for i in 0..9u32 {
        let expected = if alive(i) { Cell::Alive } else { Cell::Dead };
        assert_eq!(universe.cell_at(i % 3, i / 3), expected);
    }
    // On a 3x3 torus every cell has all eight others as neighbors exactly
    // once, so each count is the number of other live cells.
    let live_total = (0..9u32).filter(|i| alive(*i)).count() as u8;
    assert_eq!(live_total, 6);
    for row in 0..3u32 {
        for col in 0..3u32 {
            let own = alive(col + 3 * row);
            let expected = if own { live_total - 1 } else { live_total };
            assert_eq!(universe.live_neighbor_count(row, col), expected);
        }
    }
    universe.tick();
    // Every live cell had 5 live neighbors and every dead cell 6: all die.
    for y in 0..3u32 {
        for x in 0..3u32 {
            assert_eq!(universe.cell_at(x, y), Cell::Dead);
        }
    }
}
