//! The gameplay hex cell: arithmetic and canonical edge identities.

use hexcore::coordinates::Direction;
use hexcore::hex::{Edge, Hex};

#[test]
fn hex_new_and_accessors() {
    let h = Hex::new(-2, 5);
    assert_eq!(h.q(), -2);
    assert_eq!(h.r(), 5);
    assert_eq!(h.s(), -3);
}

#[test]
fn hex_distance_examples() {
    let a = Hex::new(0, 0);
    let b = Hex::new(3, -1);
    assert_eq!(Hex::distance(&a, &b), 3);
    assert_eq!(Hex::distance(&b, &a), 3);
    assert_eq!(Hex::distance(&b, &b), 0);
}

#[test]
fn hex_scalar_multiple() {
    let h = Hex::new(1, -2).mul(3);
    assert_eq!((h.q(), h.r(), h.s()), (3, -6, 3));
}

#[test]
fn edges_are_canonical() {
    let h = Hex::new(4, 7);
    let es = h.edges();
    assert_eq!(es[0], Edge::new(4, 7, 0));
    assert_eq!(es[1], Edge::new(4, 7, 1));
    assert_eq!(es[2], Edge::new(4, 7, 2));
    assert_eq!(es[3], Edge::new(4, 6, 0));
    assert_eq!(es[4], Edge::new(5, 6, 1));
    assert_eq!(es[5], Edge::new(5, 7, 2));
}

#[test]
fn adjacent_cells_share_exactly_one_edge() {
    let a = Hex::new(0, 0);
    let b = a.neighbour(Direction::E);
    let ea = a.edges();
    let eb = b.edges();
    let mut shared = 0;
    for x in ea.iter() {
        for y in eb.iter() {
            if x == y {
                shared += 1;
            }
        }
    }
    assert_eq!(shared, 1);
}

#[test]
fn edge_accessors() {
    let e = Edge::new(-3, 9, 2);
    assert_eq!(e.q(), -3);
    assert_eq!(e.r(), 9);
    assert_eq!(e.p(), 2usize);
}
