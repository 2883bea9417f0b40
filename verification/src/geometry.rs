//! Screen-space points and segments over exact scalars.

use vstd::prelude::*;
use crate::exact::{exact_valid, Exact};

verus! {

/// Numerator magnitude accepted for pixel coordinates.
pub const PIXEL_COORD_LIMIT: i128 = 16_777_216;

/// Denominator (sub-pixel resolution) accepted for pixel coordinates.
pub const PIXEL_DENOM_LIMIT: i128 = 4096;

/// A screen-space point, both components exact.
#[derive(Debug, PartialEq, Eq, Clone, Copy, Structural)]
pub struct Point {
    pub x: Exact,
    pub y: Exact,
}

/// A pair of points: the two endpoints of a drawn segment.
#[derive(Debug, PartialEq, Eq, Clone, Copy, Structural)]
pub struct PointPair {
    pub p0: Point,
    pub p1: Point,
}

/// A scalar within the pixel-space working range.
pub open spec fn exact_pixel(x: Exact) -> bool {
    &&& 1 <= x.d <= PIXEL_DENOM_LIMIT
    &&& -PIXEL_COORD_LIMIT <= x.a <= PIXEL_COORD_LIMIT
    &&& -PIXEL_COORD_LIMIT <= x.b <= PIXEL_COORD_LIMIT
}

/// A point within the pixel-space working range.
pub open spec fn point_pixel(p: Point) -> bool {
    exact_pixel(p.x) && exact_pixel(p.y)
}

impl Point {
    /// The point with the given components.
    pub fn new(x: Exact, y: Exact) -> (p: Point)
        ensures
            p.x == x,
            p.y == y,
    {
        Point { x, y }
    }
}

impl PointPair {
    /// The segment from `a` to `b`.
    pub fn new(a: Point, b: Point) -> (r: PointPair)
        ensures
            r.p0 == a,
            r.p1 == b,
    {
        PointPair { p0: a, p1: b }
    }

    /// Replaces endpoint `i` (0 or 1).
    pub fn set(&mut self, i: usize, p: Point)
        requires
            i < 2,
        ensures
            i == 0 ==> final(self).p0 == p && final(self).p1 == old(self).p1,
            i == 1 ==> final(self).p1 == p && final(self).p0 == old(self).p0,
    {
        if i == 0 {
            self.p0 = p;
        } else {
            self.p1 = p;
        }
    }
}

/// The component-wise negation of a point.
pub fn neg(vec: Point) -> (r: Point)
    requires
        point_pixel(vec),
    ensures
        r.x.a == -vec.x.a,
        r.x.b == -vec.x.b,
        r.x.d == vec.x.d,
        r.y.a == -vec.y.a,
        r.y.b == -vec.y.b,
        r.y.d == vec.y.d,
        point_pixel(r),
{
    Point {
        x: Exact { a: -vec.x.a, b: -vec.x.b, d: vec.x.d },
        y: Exact { a: -vec.y.a, b: -vec.y.b, d: vec.y.d },
    }
}

} // verus!
