//! Selection regions and their boundary outlines.

use std::collections::HashSet;

use hexcore::coordinates::Direction;
use hexcore::hex::{Edge, Hex};
use hexcore::region::{Category, Region};

fn outline_set(r: &Region) -> HashSet<Edge> {
    r.outline().iter().cloned().collect()
}

#[test]
fn empty_region_has_empty_outline() {
    let r = Region::new(Category::Neutral);
    assert!(r.outline().is_empty());
    assert!(r.cells().is_empty());
    assert_eq!(r.category(), Category::Neutral);
}

#[test]
fn single_cell_outline_is_its_six_edges() {
    let mut r = Region::new(Category::Player);
    let h = Hex::new(2, -1);
    r.push(h);
    let outline = outline_set(&r);
    let own: HashSet<Edge> = h.edges().iter().cloned().collect();
    assert_eq!(outline, own);
    assert_eq!(outline.len(), 6);
}

#[test]
fn pushing_twice_changes_nothing() {
    let mut once = Region::new(Category::Friendly);
    once.push(Hex::new(0, 0));
    once.push(Hex::new(1, 0));
    let mut twice = Region::new(Category::Friendly);
    twice.push(Hex::new(0, 0));
    twice.push(Hex::new(1, 0));
    twice.push(Hex::new(1, 0));
    assert_eq!(twice.cells().len(), 2);
    assert_eq!(outline_set(&once), outline_set(&twice));
}

#[test]
fn clear_then_reselect_restores_outline() {
    let mut r = Region::new(Category::Hostile);
    r.push(Hex::new(0, 0));
    r.push(Hex::new(0, 1));
    r.push(Hex::new(1, 0));
    let before = outline_set(&r);
    r.clear();
    assert!(r.outline().is_empty());
    // Re-select the same set in another order.
    r.push(Hex::new(1, 0));
    r.push(Hex::new(0, 0));
    r.push(Hex::new(0, 1));
    assert_eq!(outline_set(&r), before);
}

#[test]
fn shared_edge_of_adjacent_cells_cancels() {
    let mut r = Region::new(Category::Neutral);
    let a = Hex::new(0, 0);
    let b = a.neighbour(Direction::E);
    r.push(a);
    r.push(b);
    let outline = outline_set(&r);
    // Two cells of six edges each, minus the one shared side counted twice.
    assert_eq!(outline.len(), 10);
    let ea: HashSet<Edge> = a.edges().iter().cloned().collect();
    let eb: HashSet<Edge> = b.edges().iter().cloned().collect();
    let shared: Vec<&Edge> = ea.intersection(&eb).collect();
    assert_eq!(shared.len(), 1);
    assert!(!outline.contains(shared[0]));
    // Every unshared edge of either cell stays.
    for e in ea.symmetric_difference(&eb) {
        assert!(outline.contains(e));
    }
}

#[test]
fn interior_cell_fully_cancelled() {
    // A cell surrounded by all six neighbours contributes nothing to the
    // outline.
    let mut r = Region::new(Category::Player);
    let c = Hex::new(0, 0);
    r.push(c);
    for d in [
        Direction::E,
        Direction::NE,
        Direction::NW,
        Direction::W,
        Direction::SW,
        Direction::SE,
    ] {
        r.push(c.neighbour(d));
    }
    let outline = outline_set(&r);
    for e in c.edges().iter() {
        assert!(!outline.contains(e));
    }
    // Seven cells of six edges each, minus the six centre-ring and six
    // ring-ring shared sides, each counted twice: 42 - 24.
    assert_eq!(outline.len(), 18);
}
