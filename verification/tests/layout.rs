//! The layout projection: centres, corners, and the pixel-to-hex rounding.

use hexcore::exact::Exact;
use hexcore::geometry::Point;
use hexcore::hex::{Edge, Hex};
use hexcore::layout::{Layout, Orientation, FLAT_TOP, POINTY_TOP};

fn pixel(x: i64, y: i64) -> Point {
    Point::new(Exact::from_int(x), Exact::from_int(y))
}

#[test]
fn pointy_center_exact_value() {
    let l = Layout::new(POINTY_TOP, 10, 10, 20, 30);
    let c = Hex::new(1, 2).center_pixel(&l);
    // x = 20 + 20·√3, y = 60, both over denominator two.
    assert_eq!((c.x.a, c.x.b, c.x.d), (40, 40, 2));
    assert_eq!((c.y.a, c.y.b, c.y.d), (120, 0, 2));
}

#[test]
fn flat_center_exact_value() {
    let l = Layout::new(FLAT_TOP, 10, 10, 20, 30);
    let c = Hex::new(1, 2).center_pixel(&l);
    // x = 35, y = 30 + 25·√3.
    assert_eq!((c.x.a, c.x.b, c.x.d), (70, 0, 2));
    assert_eq!((c.y.a, c.y.b, c.y.d), (60, 50, 2));
}

#[test]
fn pointy_vertices_of_origin_cell() {
    let l = Layout::new(POINTY_TOP, 10, 10, 0, 0);
    let v = Hex::new(0, 0).vertices(&l);
    // Corner 0 at (5·√3, 5), corner 1 at (0, 10), corner 4 at (0, -10).
    assert_eq!((v[0].x.a, v[0].x.b, v[0].x.d), (0, 10, 2));
    assert_eq!((v[0].y.a, v[0].y.b, v[0].y.d), (10, 0, 2));
    assert_eq!((v[1].x.a, v[1].x.b), (0, 0));
    assert_eq!((v[1].y.a, v[1].y.b), (20, 0));
    assert_eq!((v[4].x.a, v[4].x.b), (0, 0));
    assert_eq!((v[4].y.a, v[4].y.b), (-20, 0));
}

#[test]
fn edges_vertices_close_the_cycle() {
    let l = Layout::new(FLAT_TOP, 12, 12, 5, 5);
    let h = Hex::new(2, -3);
    let v = h.vertices(&l);
    let ev = h.edges_vertices(&l);
    for i in 0..6 {
        assert_eq!(ev[i].p0, v[i]);
        assert_eq!(ev[i].p1, v[(i + 1) % 6]);
    }
}

#[test]
fn edge_segment_matches_owner_corners() {
    let l = Layout::new(POINTY_TOP, 10, 10, 0, 0);
    let h = Hex::new(3, -1);
    let v = h.vertices(&l);
    let seg = Edge::new(3, -1, 1).vertices(&l);
    assert_eq!(seg.p0, v[1]);
    assert_eq!(seg.p1, v[2]);
}

#[test]
fn projection_round_trip_pointy() {
    let l = Layout::new(POINTY_TOP, 7, 9, -13, 42);
    for (q, r) in [(0, 0), (5, -3), (-8, 2), (1000, -1000), (-1024, 1024), (17, 23)] {
        let h = Hex::new(q, r);
        let back = Hex::pixel2hex(h.center_pixel(&l), &l);
        assert_eq!(back, h);
    }
}

#[test]
fn projection_round_trip_flat() {
    let l = Layout::new(FLAT_TOP, 31, 5, 1000, -999);
    for (q, r) in [(0, 0), (5, -3), (-8, 2), (512, -100), (-1024, 1024)] {
        let h = Hex::new(q, r);
        let back = Hex::pixel2hex(h.center_pixel(&l), &l);
        assert_eq!(back, h);
    }
}

#[test]
fn pixel_between_rows_resolves_by_largest_error() {
    let l = Layout::new(POINTY_TOP, 10, 10, 0, 0);
    // y = 7.5 sits halfway in fractional r; the r axis carries the largest
    // rounding error and is recomputed from q and s.
    let halfway = Point::new(Exact::from_int(0), Exact::ratio(15, 2));
    assert_eq!(Hex::pixel2hex(halfway, &l), Hex::new(0, 0));
}

#[test]
fn pixel_tie_resolves_s_axis_last() {
    let l = Layout::new(POINTY_TOP, 10, 10, 0, 0);
    // (0, 15) is equally far from the centres of (-1, 1) and (0, 1); the
    // tie order q, r, s recomputes s and lands in (-1, 1).
    assert_eq!(Hex::pixel2hex(pixel(0, 15), &l), Hex::new(-1, 1));
}

#[test]
fn pixel_near_east_neighbour() {
    let l = Layout::new(POINTY_TOP, 10, 10, 0, 0);
    // x = 17 is close to the centre of (1, 0) at 10·√3.
    assert_eq!(Hex::pixel2hex(pixel(17, 0), &l), Hex::new(1, 0));
    assert_eq!(Hex::pixel2hex(pixel(0, 0), &l), Hex::new(0, 0));
}

#[test]
fn orientation_constants_differ() {
    assert_eq!(POINTY_TOP, Orientation::PointyTop);
    assert_eq!(FLAT_TOP, Orientation::FlatTop);
    assert_ne!(POINTY_TOP, FLAT_TOP);
}
