//! Plain point and segment helpers.

use hexcore::exact::Exact;
use hexcore::geometry::{neg, Point, PointPair};

#[test]
fn negation_flips_both_components() {
    let p = Point::new(Exact { a: 3, b: -4, d: 2 }, Exact { a: -5, b: 6, d: 1 });
    let n = neg(p);
    assert_eq!((n.x.a, n.x.b, n.x.d), (-3, 4, 2));
    assert_eq!((n.y.a, n.y.b, n.y.d), (5, -6, 1));
}

#[test]
fn point_pair_endpoints_replaceable() {
    let a = Point::new(Exact::from_int(1), Exact::from_int(2));
    let b = Point::new(Exact::from_int(3), Exact::from_int(4));
    let c = Point::new(Exact::from_int(5), Exact::from_int(6));
    let mut pair = PointPair::new(a, b);
    assert_eq!(pair.p0, a);
    assert_eq!(pair.p1, b);
    pair.set(1, c);
    assert_eq!(pair.p0, a);
    assert_eq!(pair.p1, c);
    pair.set(0, b);
    assert_eq!(pair.p0, b);
}
