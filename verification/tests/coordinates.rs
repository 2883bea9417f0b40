//! Cube-coordinate arithmetic on the ECS coordinate component.

use hexcore::coordinates::{Coordinates, Direction};

fn cube_sum(c: &Coordinates) -> i64 {
    c.q() as i64 + c.s() as i64 + c.r() as i64
}

#[test]
fn new_derives_third_axis() {
    let c = Coordinates::new(3, -7);
    assert_eq!(c.q(), 3);
    assert_eq!(c.r(), -7);
    assert_eq!(c.s(), 4);
    assert_eq!(cube_sum(&c), 0);
}

#[test]
fn cube_invariant_survives_arithmetic() {
    let a = Coordinates::new(5, -2);
    let b = Coordinates::new(-3, 9);
    assert_eq!(cube_sum(&a.add(&b)), 0);
    assert_eq!(cube_sum(&a.sub(&b)), 0);
    assert_eq!(cube_sum(&a.mul(4)), 0);
    assert_eq!(cube_sum(&a.neighbour(Direction::NE)), 0);
}

#[test]
fn length_is_half_abs_sum() {
    assert_eq!(Coordinates::new(0, 0).length(), 0);
    assert_eq!(Coordinates::new(1, 0).length(), 1);
    assert_eq!(Coordinates::new(2, -5).length(), 5);
    assert_eq!(Coordinates::new(-4, -4).length(), 8);
}

#[test]
fn distance_of_cell_to_itself_is_zero() {
    let a = Coordinates::new(11, -6);
    assert_eq!(Coordinates::distance(&a, &a), 0);
}

#[test]
fn distance_is_symmetric() {
    let a = Coordinates::new(2, 3);
    let b = Coordinates::new(-4, 1);
    let d1 = Coordinates::distance(&a, &b);
    let d2 = Coordinates::distance(&b, &a);
    assert_eq!(d1, d2);
    assert_eq!(d1, 8);
}

#[test]
fn direction_table_counter_clockwise_from_east() {
    let east = Coordinates::direction(Direction::E);
    assert_eq!((east.q(), east.s(), east.r()), (1, -1, 0));
    let ne = Coordinates::direction(Direction::NE);
    assert_eq!((ne.q(), ne.s(), ne.r()), (1, 0, -1));
    let nw = Coordinates::direction(Direction::NW);
    assert_eq!((nw.q(), nw.s(), nw.r()), (0, 1, -1));
    let west = Coordinates::direction(Direction::W);
    assert_eq!((west.q(), west.s(), west.r()), (-1, 1, 0));
    let sw = Coordinates::direction(Direction::SW);
    assert_eq!((sw.q(), sw.s(), sw.r()), (-1, 0, 1));
    let se = Coordinates::direction(Direction::SE);
    assert_eq!((se.q(), se.s(), se.r()), (0, -1, 1));
}

#[test]
fn neighbour_and_opposite_return_home() {
    let dirs = [
        (Direction::E, Direction::W),
        (Direction::NE, Direction::SW),
        (Direction::NW, Direction::SE),
        (Direction::W, Direction::E),
        (Direction::SW, Direction::NE),
        (Direction::SE, Direction::NW),
    ];
    let a = Coordinates::new(7, -3);
    for (d, opp) in dirs {
        let back = a.neighbour(d).neighbour(opp);
        assert_eq!(back, a);
    }
}

#[test]
fn length_at_the_coordinate_limit() {
    // The largest coordinates the executable operations accept.
    let c = Coordinates::new(1_000_000_000, -1_000_000_000);
    assert_eq!(c.s(), 0);
    assert_eq!(c.length(), 1_000_000_000);
    let far = Coordinates::new(1_000_000_000, 0);
    let near = Coordinates::new(-1_000_000_000, 0);
    assert_eq!(Coordinates::distance(&far, &near), 2_000_000_000);
}

#[test]
fn neighbour_moves_one_step() {
    let a = Coordinates::new(0, 0);
    let n = a.neighbour(Direction::SE);
    assert_eq!((n.q(), n.r()), (0, 1));
    assert_eq!(Coordinates::distance(&a, &n), 1);
}
