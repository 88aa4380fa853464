//! Tests of the coordinate/index mapping.

use life_engine::cell::Coordinate;
use life_engine::engine::Universe;

#[test]
fn main_check_coord_from_index() {
    let universe = Universe::new(64, 64).unwrap();
    assert_eq!(universe.coord_from_index(0).x, 0);
    assert_eq!(universe.coord_from_index(0).y, 0);
}

#[test]
fn main_check_index_from_coord() {
    let universe = Universe::new(64, 64).unwrap();
    assert_eq!(universe.index_from_coord(Coordinate { x: 0, y: 0 }), 0);
    assert_eq!(universe.index_from_coord(Coordinate { x: 1, y: 0 }), 1);
    assert_eq!(universe.index_from_coord(Coordinate { x: 0, y: 1 }), 64);
}

#[test]
fn main2_check_coord_from_index() {
    let universe = Universe::new(64, 64).unwrap();
    assert_eq!(universe.coord_from_index(0).x, 0);
    assert_eq!(universe.coord_from_index(0).y, 0);
}

#[test]
fn main2_check_index_from_coord() {
    let universe = Universe::new(64, 64).unwrap();
    assert_eq!(universe.get_index(Coordinate { x: 0, y: 0 }), 0);
    assert_eq!(universe.get_index(Coordinate { x: 1, y: 0 }), 1);
    assert_eq!(universe.get_index(Coordinate { x: 0, y: 1 }), 64);
}

#[test]
fn bijection_round_trip() {
    let universe = Universe::new(64, 64).unwrap();
    for i in 0..64 * 64u32 {
        let coord = universe.coord_from_index(i);
        assert_eq!(universe.index_from_coord(coord), i);
    }
    let narrow = Universe::new(5, 3).unwrap();
    for y in 0..3u32 {
        for x in 0..5u32 {
            let coord = Coordinate { x, y };
            let i = narrow.index_from_coord(coord);
            assert!(i < 15);
            let back = narrow.coord_from_index(i);
            assert_eq!(back.x, x);
            assert_eq!(back.y, y);
        }
    }
}

#[test]
fn index_is_row_major() {
    let universe = Universe::new(7, 9).unwrap();
    assert_eq!(universe.index_from_coord(Coordinate { x: 3, y: 2 }), 3 + 7 * 2);
    assert_eq!(universe.coord_from_index(17).x, 3);
    assert_eq!(universe.coord_from_index(17).y, 2);
}
