//! The screen-space layout transform: hex cells to pixel centres and back.
//!
//! A [`Layout`] composes one of the two canonical orientations with a
//! whole-pixel radius vector and origin. In exact arithmetic the
//! coordinate-to-screen matrix of each orientation and its inverse cancel
//! perfectly, so projecting a cell centre and mapping it back recovers the
//! cell — a fact proved here as [`lemma_projection_round_trip`].
//!
//! The pixel-to-hex direction rounds each fractional cube axis to the
//! nearest integer independently and then discards the axis with the
//! largest rounding error, recomputing it from the other two, with the tie
//! order `q`, then `r`, then `s`; this exact tie order decides which cell a
//! boundary click resolves to and is preserved faithfully.

use vstd::prelude::*;
use crate::coordinates::iabs;
use crate::exact::{
    abs_gt, abs_gt_exec, is_rounded, lemma_rounded_unique, round3_exec, rounded, sign3, Exact,
    ROUND_LIMIT, SIGN_LIMIT,
};
use crate::geometry::{point_pixel, Point, PointPair, PIXEL_COORD_LIMIT, PIXEL_DENOM_LIMIT};
use crate::hex::{hex_cube_ok, hex_in_range, hex_new, Edge, Hex};

verus! {

/// The two canonical hex orientations.
#[derive(Debug, PartialEq, Eq, Clone, Copy, Structural)]
pub enum Orientation {
    /// Vertex at the top of each cell's east side; rows run horizontally.
    PointyTop,
    /// Flat side at the top; columns run vertically.
    FlatTop,
}

/// The pointy-top orientation as a named configuration value.
pub const POINTY_TOP: Orientation = Orientation::PointyTop;

/// The flat-top orientation as a named configuration value.
pub const FLAT_TOP: Orientation = Orientation::FlatTop;

/// Largest accepted cell radius, in pixels.
pub const RADIUS_LIMIT: i64 = 4096;

/// Largest accepted origin offset magnitude, in pixels.
pub const ORIGIN_LIMIT: i64 = 262_144;

/// Largest axial coordinate magnitude for which cell geometry is projected.
pub const HEX_PROJ_LIMIT: i32 = 1024;

/// Bound on a rounded fractional axis, relative to the denominator.
pub const AXIS_LIMIT: i128 = 0x1800_0000;

/// The full hex-to-pixel mapping: an orientation, a per-axis radius in
/// pixels, and a pixel origin for cell `(0, 0)`.
#[derive(Debug, PartialEq, Eq, Clone, Copy, Structural)]
pub struct Layout {
    pub orientation: Orientation,
    /// Horizontal radius, pixels.
    pub rx: i64,
    /// Vertical radius, pixels.
    pub ry: i64,
    /// Origin, horizontal pixels.
    pub ox: i64,
    /// Origin, vertical pixels.
    pub oy: i64,
}

/// A usable layout: positive bounded radius, bounded origin. A radius of
/// zero would make the inverse mapping divide by zero and is rejected here,
/// at construction.
pub open spec fn layout_wf(l: Layout) -> bool {
    &&& 1 <= l.rx <= RADIUS_LIMIT
    &&& 1 <= l.ry <= RADIUS_LIMIT
    &&& -ORIGIN_LIMIT <= l.ox <= ORIGIN_LIMIT
    &&& -ORIGIN_LIMIT <= l.oy <= ORIGIN_LIMIT
}

/// A cell close enough to the origin for its geometry to stay within the
/// pixel-space working range.
pub open spec fn projectable(h: Hex) -> bool {
    &&& -HEX_PROJ_LIMIT <= h.q <= HEX_PROJ_LIMIT
    &&& -HEX_PROJ_LIMIT <= h.r <= HEX_PROJ_LIMIT
}

impl Layout {
    /// A layout from an orientation, radius vector and origin, all in
    /// pixels. A non-positive or oversized radius is a configuration error,
    /// rejected here by precondition.
    pub fn new(d: Orientation, rx: i64, ry: i64, ox: i64, oy: i64) -> (l: Layout)
        requires
            1 <= rx <= RADIUS_LIMIT,
            1 <= ry <= RADIUS_LIMIT,
            -ORIGIN_LIMIT <= ox <= ORIGIN_LIMIT,
            -ORIGIN_LIMIT <= oy <= ORIGIN_LIMIT,
        ensures
            l == (Layout { orientation: d, rx, ry, ox, oy }),
            layout_wf(l),
    {
        Layout { orientation: d, rx, ry, ox, oy }
    }
}

/// Horizontal pixel centre of cell `h`: for pointy-top
/// `rx·(2q + r)·√3/2 + ox`, for flat-top `rx·3q/2 + ox`.
pub open spec fn spec_center_x(h: Hex, l: Layout) -> Exact {
    match l.orientation {
        Orientation::PointyTop => Exact {
            a: (2 * l.ox) as i128,
            b: ((l.rx) * (2 * h.q + h.r)) as i128,
            d: 2,
        },
        Orientation::FlatTop => Exact { a: (3 * (l.rx) * h.q + 2 * l.ox) as i128, b: 0, d: 2 },
    }
}

/// Vertical pixel centre of cell `h`: for pointy-top `ry·3r/2 + oy`, for
/// flat-top `ry·(q + 2r)·√3/2 + oy`.
pub open spec fn spec_center_y(h: Hex, l: Layout) -> Exact {
    match l.orientation {
        Orientation::PointyTop => Exact { a: (3 * (l.ry) * h.r + 2 * l.oy) as i128, b: 0, d: 2 },
        Orientation::FlatTop => Exact {
            a: (2 * l.oy) as i128,
            b: ((l.ry) * (h.q + 2 * h.r)) as i128,
            d: 2,
        },
    }
}

/// The pixel centre of cell `h` under layout `l`.
pub open spec fn spec_center(h: Hex, l: Layout) -> Point {
    Point { x: spec_center_x(h, l), y: spec_center_y(h, l) }
}

/// The common denominator of the fractional cube axes recovered from pixel
/// `p`: three times the product of both pixel denominators and both radii.
pub open spec fn frac_m(p: Point, l: Layout) -> int {
    3 * (p.x.d * l.rx) * (p.y.d * l.ry)
}

/// Numerator of the origin-shifted horizontal coordinate.
pub open spec fn shifted_x(p: Point, l: Layout) -> int {
    p.x.a - l.ox * p.x.d
}

/// Numerator of the origin-shifted vertical coordinate.
pub open spec fn shifted_y(p: Point, l: Layout) -> int {
    p.y.a - l.oy * p.y.d
}

/// Rational numerator of the fractional `q` axis over [`frac_m`].
pub open spec fn frac_qu(p: Point, l: Layout) -> int {
    match l.orientation {
        Orientation::PointyTop => 3 * p.x.b * (p.y.d * l.ry) - shifted_y(p, l) * (p.x.d * l.rx),
        Orientation::FlatTop => 2 * shifted_x(p, l) * (p.y.d * l.ry),
    }
}

/// `√3` numerator of the fractional `q` axis over [`frac_m`].
pub open spec fn frac_qv(p: Point, l: Layout) -> int {
    match l.orientation {
        Orientation::PointyTop => shifted_x(p, l) * (p.y.d * l.ry) - p.y.b * (p.x.d * l.rx),
        Orientation::FlatTop => 2 * p.x.b * (p.y.d * l.ry),
    }
}

/// Rational numerator of the fractional `r` axis over [`frac_m`].
pub open spec fn frac_ru(p: Point, l: Layout) -> int {
    match l.orientation {
        Orientation::PointyTop => 2 * shifted_y(p, l) * (p.x.d * l.rx),
        Orientation::FlatTop => 3 * p.y.b * (p.x.d * l.rx) - shifted_x(p, l) * (p.y.d * l.ry),
    }
}

/// `√3` numerator of the fractional `r` axis over [`frac_m`].
pub open spec fn frac_rv(p: Point, l: Layout) -> int {
    match l.orientation {
        Orientation::PointyTop => 2 * p.y.b * (p.x.d * l.rx),
        Orientation::FlatTop => shifted_y(p, l) * (p.x.d * l.rx) - p.x.b * (p.y.d * l.ry),
    }
}

/// Doubled cosine of vertex `i`'s angle for pointy-top cells, in units
/// where `1` stands for `√3/2` on the horizontal axis.
pub open spec fn pointy_cos2(i: int) -> int {
    if i == 0 {
        1
    } else if i == 1 {
        0
    } else if i == 2 {
        -1
    } else if i == 3 {
        -1
    } else if i == 4 {
        0
    } else {
        1
    }
}

/// Doubled sine of vertex `i`'s angle for pointy-top cells.
pub open spec fn pointy_sin2(i: int) -> int {
    if i == 0 {
        1
    } else if i == 1 {
        2
    } else if i == 2 {
        1
    } else if i == 3 {
        -1
    } else if i == 4 {
        -2
    } else {
        -1
    }
}

/// Doubled cosine of vertex `i`'s angle for flat-top cells.
pub open spec fn flat_cos2(i: int) -> int {
    if i == 0 {
        2
    } else if i == 1 {
        1
    } else if i == 2 {
        -1
    } else if i == 3 {
        -2
    } else if i == 4 {
        -1
    } else {
        1
    }
}

/// Doubled sine of vertex `i`'s angle for flat-top cells, in units where
/// `1` stands for `√3/2` on the vertical axis.
pub open spec fn flat_sin2(i: int) -> int {
    if i == 0 {
        0
    } else if i == 1 {
        1
    } else if i == 2 {
        1
    } else if i == 3 {
        0
    } else if i == 4 {
        -1
    } else {
        -1
    }
}

/// The offset of vertex `i` from a cell's centre:
/// `(rx·cos(angle), ry·sin(angle))` at `angle = π·(start + i)/3`, with
/// `start` a half for pointy-top and zero for flat-top.
pub open spec fn spec_vertex_offset(l: Layout, i: int) -> Point {
    match l.orientation {
        Orientation::PointyTop => Point {
            x: Exact { a: 0, b: (l.rx * pointy_cos2(i)) as i128, d: 2 },
            y: Exact { a: (l.ry * pointy_sin2(i)) as i128, b: 0, d: 2 },
        },
        Orientation::FlatTop => Point {
            x: Exact { a: (l.rx * flat_cos2(i)) as i128, b: 0, d: 2 },
            y: Exact { a: 0, b: (l.ry * flat_sin2(i)) as i128, d: 2 },
        },
    }
}

/// Corner `i` of cell `h`: the centre plus the vertex offset, summed over
/// the common denominator two.
pub open spec fn spec_vertex(h: Hex, l: Layout, i: int) -> Point {
    let c = spec_center(h, l);
    let o = spec_vertex_offset(l, i);
    Point {
        x: Exact { a: ((c.x.a + o.x.a) as i128), b: ((c.x.b + o.x.b) as i128), d: 2 },
        y: Exact { a: ((c.y.a + o.y.a) as i128), b: ((c.y.b + o.y.b) as i128), d: 2 },
    }
}

/// Cube rounding over exact fractional axes sharing denominator `m`: round
/// each axis to the nearest integer, then discard the axis with the
/// strictly largest rounding error — `q` before `r` before `s` on ties —
/// and recompute it from the other two, restoring the zero-sum invariant.
pub open spec fn cube_round_spec(
    uq: int,
    vq: int,
    ur: int,
    vr: int,
    us: int,
    vs: int,
    m: int,
) -> (int, int) {
    let q0 = rounded(uq, vq, m);
    let r0 = rounded(ur, vr, m);
    let s0 = rounded(us, vs, m);
    let equ = uq - q0 * m;
    let eru = ur - r0 * m;
    let esu = us - s0 * m;
    if abs_gt(equ, vq, eru, vr) && abs_gt(equ, vq, esu, vs) {
        (-r0 - s0, r0)
    } else if abs_gt(eru, vr, esu, vs) {
        (q0, -q0 - s0)
    } else {
        (q0, r0)
    }
}

/// The cell a pixel falls in: the cube rounding of the exact fractional
/// axes recovered through the inverse orientation matrix.
pub open spec fn spec_pixel2hex(p: Point, l: Layout) -> Hex {
    let qr = cube_round_spec(
        frac_qu(p, l),
        frac_qv(p, l),
        frac_ru(p, l),
        frac_rv(p, l),
        -frac_qu(p, l) - frac_ru(p, l),
        -frac_qv(p, l) - frac_rv(p, l),
        frac_m(p, l),
    );
    hex_new(qr.0, qr.1)
}

/// Bounded product: magnitudes multiply.
proof fn lemma_mul_bound(x: int, y: int, xb: int, yb: int)
    requires
        -xb <= x <= xb,
        -yb <= y <= yb,
        0 <= xb,
        0 <= yb,
    ensures
        -(xb * yb) <= x * y <= xb * yb,
{
    assert(-(xb * yb) <= x * y <= xb * yb) by (nonlinear_arith)
        requires
            -xb <= x <= xb && -yb <= y <= yb && 0 <= xb && 0 <= yb,
    ;
}

/// Multiplying both sides of a bound by a non-negative factor.
proof fn lemma_mul_mono(a: int, b: int, c: int)
    requires
        a <= b,
        0 <= c,
    ensures
        a * c <= b * c,
{
    assert(a * c <= b * c) by (nonlinear_arith)
        requires
            a <= b && 0 <= c,
    ;
}

impl Hex {
    /// The pixel centre of this cell under `layout`.
    pub fn center_pixel(&self, layout: &Layout) -> (p: Point)
        requires
            layout_wf(*layout),
            projectable(*self),
        ensures
            p == spec_center(*self, *layout),
            point_pixel(p),
    {
        let q = self.q as i128;
        let r = self.r as i128;
        let rx = layout.rx as i128;
        let ry = layout.ry as i128;
        let ox = layout.ox as i128;
        let oy = layout.oy as i128;
        match layout.orientation {
            Orientation::PointyTop => {
                proof {
                    lemma_mul_bound(
                        rx as int,
                        2 * q + r,
                        RADIUS_LIMIT as int,
                        3 * HEX_PROJ_LIMIT as int,
                    );
                    lemma_mul_bound(3 * ry, r as int, 3 * RADIUS_LIMIT as int, HEX_PROJ_LIMIT as int);
                }
                Point {
                    x: Exact { a: 2 * ox, b: rx * (2 * q + r), d: 2 },
                    y: Exact { a: 3 * ry * r + 2 * oy, b: 0, d: 2 },
                }
            },
            Orientation::FlatTop => {
                proof {
                    lemma_mul_bound(3 * rx, q as int, 3 * RADIUS_LIMIT as int, HEX_PROJ_LIMIT as int);
                    lemma_mul_bound(
                        ry as int,
                        q + 2 * r,
                        RADIUS_LIMIT as int,
                        3 * HEX_PROJ_LIMIT as int,
                    );
                }
                Point {
                    x: Exact { a: 3 * rx * q + 2 * ox, b: 0, d: 2 },
                    y: Exact { a: 2 * oy, b: ry * (q + 2 * r), d: 2 },
                }
            },
        }
    }

    /// The cell containing pixel `p` under `layout`, by exact inverse
    /// projection and cube rounding.
    pub fn pixel2hex(p: Point, layout: &Layout) -> (h: Hex)
        requires
            layout_wf(*layout),
            point_pixel(p),
        ensures
            h == spec_pixel2hex(p, *layout),
            hex_cube_ok(h),
            hex_in_range(h),
    {
        let ax = p.x.a;
        let bx = p.x.b;
        let dx = p.x.d;
        let ay = p.y.a;
        let by = p.y.b;
        let dy = p.y.d;
        let rx = layout.rx as i128;
        let ry = layout.ry as i128;
        let ox = layout.ox as i128;
        let oy = layout.oy as i128;
        proof {
            lemma_mul_bound(dx as int, rx as int, PIXEL_DENOM_LIMIT as int, RADIUS_LIMIT as int);
            lemma_mul_bound(dy as int, ry as int, PIXEL_DENOM_LIMIT as int, RADIUS_LIMIT as int);
            lemma_mul_bound(ox as int, dx as int, ORIGIN_LIMIT as int, PIXEL_DENOM_LIMIT as int);
            lemma_mul_bound(oy as int, dy as int, ORIGIN_LIMIT as int, PIXEL_DENOM_LIMIT as int);
        }
        let fx = dx * rx;
        let fy = dy * ry;
        let sx = ax - ox * dx;
        let sy = ay - oy * dy;
        proof {
            lemma_mul_bound(fx as int, fy as int, 0x1000000, 0x1000000);
            lemma_mul_bound(3 * fx, fy as int, 0x3000000, 0x1000000);
            lemma_mul_bound(3 * bx, fy as int, 3 * PIXEL_COORD_LIMIT as int, 0x1000000);
            lemma_mul_bound(3 * by, fx as int, 3 * PIXEL_COORD_LIMIT as int, 0x1000000);
            lemma_mul_bound(sx as int, fy as int, 0x41000000, 0x1000000);
            lemma_mul_bound(sy as int, fx as int, 0x41000000, 0x1000000);
            lemma_mul_bound(2 * sx, fy as int, 0x82000000, 0x1000000);
            lemma_mul_bound(2 * sy, fx as int, 0x82000000, 0x1000000);
            lemma_mul_bound(bx as int, fx as int, PIXEL_COORD_LIMIT as int, 0x1000000);
            lemma_mul_bound(by as int, fx as int, PIXEL_COORD_LIMIT as int, 0x1000000);
            lemma_mul_bound(bx as int, fy as int, PIXEL_COORD_LIMIT as int, 0x1000000);
            lemma_mul_bound(by as int, fy as int, PIXEL_COORD_LIMIT as int, 0x1000000);
            lemma_mul_bound(2 * bx, fy as int, 2 * PIXEL_COORD_LIMIT as int, 0x1000000);
            lemma_mul_bound(2 * by, fx as int, 2 * PIXEL_COORD_LIMIT as int, 0x1000000);
        }
        let m = 3 * fx * fy;
        let u1: i128;
        let v1: i128;
        let u2: i128;
        let v2: i128;
        match layout.orientation {
            Orientation::PointyTop => {
                u1 = 3 * bx * fy - sy * fx;
                v1 = sx * fy - by * fx;
                u2 = 2 * sy * fx;
                v2 = 2 * by * fx;
            },
            Orientation::FlatTop => {
                u1 = 2 * sx * fy;
                v1 = 2 * bx * fy;
                u2 = 3 * by * fx - sx * fy;
                v2 = sy * fx - bx * fy;
            },
        }
        let us = -u1 - u2;
        let vs = -v1 - v2;
        proof {
            assert(u1 == frac_qu(p, *layout) && v1 == frac_qv(p, *layout) && u2 == frac_ru(
                p,
                *layout,
            ) && v2 == frac_rv(p, *layout) && m == frac_m(p, *layout));
            lemma_frac_bounds(p, *layout);
        }
        cube_round(u1, v1, u2, v2, us, vs, m)
    }

    /// The six corners of this cell, counter-clockwise, in the cyclic order
    /// matching the [`crate::coordinates::Direction`] table.
    pub fn vertices(&self, layout: &Layout) -> (r: [Point; 6])
        requires
            layout_wf(*layout),
            projectable(*self),
        ensures
            forall|i: int| 0 <= i < 6 ==> r@[i] == spec_vertex(*self, *layout, i),
    {
        let c = self.center_pixel(layout);
        let r = [
            corner(&c, layout, 0),
            corner(&c, layout, 1),
            corner(&c, layout, 2),
            corner(&c, layout, 3),
            corner(&c, layout, 4),
            corner(&c, layout, 5),
        ];
        r
    }

    /// The two endpoints of this cell's side `p`, for `p` among the three
    /// sides the cell owns: corner `p` to corner `p + 1`.
    pub fn edge_vertices_at(&self, p: usize, layout: &Layout) -> (r: PointPair)
        requires
            p < 3,
            layout_wf(*layout),
            projectable(*self),
        ensures
            r.p0 == spec_vertex(*self, *layout, p as int),
            r.p1 == spec_vertex(*self, *layout, p as int + 1),
    {
        let c = self.center_pixel(layout);
        PointPair { p0: corner(&c, layout, p), p1: corner(&c, layout, p + 1) }
    }

    /// The six sides of this cell as drawn segments: side `i` connects
    /// corner `i` to corner `i + 1`, wrapping at six.
    pub fn edges_vertices(&self, layout: &Layout) -> (r: [PointPair; 6])
        requires
            layout_wf(*layout),
            projectable(*self),
        ensures
            forall|i: int|
                0 <= i < 6 ==> (#[trigger] r@[i]).p0 == spec_vertex(*self, *layout, i),
            forall|i: int| 0 <= i < 5 ==> (#[trigger] r@[i]).p1 == spec_vertex(*self, *layout, i + 1),
            r@[5].p1 == spec_vertex(*self, *layout, 0),
    {
        let c = self.center_pixel(layout);
        let v0 = corner(&c, layout, 0);
        let v1 = corner(&c, layout, 1);
        let v2 = corner(&c, layout, 2);
        let v3 = corner(&c, layout, 3);
        let v4 = corner(&c, layout, 4);
        let v5 = corner(&c, layout, 5);
        let r = [
            PointPair { p0: v0, p1: v1 },
            PointPair { p0: v1, p1: v2 },
            PointPair { p0: v2, p1: v3 },
            PointPair { p0: v3, p1: v4 },
            PointPair { p0: v4, p1: v5 },
            PointPair { p0: v5, p1: v0 },
        ];
        r
    }
}

impl Edge {
    /// The drawn segment of this edge: corners `p` and `p + 1` of the
    /// owning cell.
    pub fn vertices(&self, layout: &Layout) -> (r: PointPair)
        requires
            layout_wf(*layout),
            0 <= self.p < 3,
            -HEX_PROJ_LIMIT <= self.q <= HEX_PROJ_LIMIT,
            -HEX_PROJ_LIMIT <= self.r <= HEX_PROJ_LIMIT,
        ensures
            r.p0 == spec_vertex(hex_new(self.q as int, self.r as int), *layout, self.p as int),
            r.p1 == spec_vertex(hex_new(self.q as int, self.r as int), *layout, self.p as int + 1),
    {
        let hex = Hex::new(self.q, self.r);
        hex.edge_vertices_at(self.p as usize, layout)
    }
}

/// The vertex offset of corner `index` under `layout`, as an exact point.
fn vertex_offset(layout: &Layout, index: usize) -> (r: Point)
    requires
        layout_wf(*layout),
        index < 6,
    ensures
        r == spec_vertex_offset(*layout, index as int),
        -8192 <= r.x.a <= 8192,
        -8192 <= r.x.b <= 8192,
        -8192 <= r.y.a <= 8192,
        -8192 <= r.y.b <= 8192,
{
    let rx = layout.rx as i128;
    let ry = layout.ry as i128;
    match layout.orientation {
        Orientation::PointyTop => {
            let cb: i128 = if index == 0 || index == 5 {
                rx
            } else if index == 1 || index == 4 {
                0
            } else {
                -rx
            };
            let sa: i128 = if index == 0 || index == 2 {
                ry
            } else if index == 1 {
                ry + ry
            } else if index == 4 {
                -(ry + ry)
            } else {
                -ry
            };
            proof {
                assert(cb as int == (layout.rx as int) * pointy_cos2(index as int));
                assert(sa as int == (layout.ry as int) * pointy_sin2(index as int));
            }
            Point { x: Exact { a: 0, b: cb, d: 2 }, y: Exact { a: sa, b: 0, d: 2 } }
        },
        Orientation::FlatTop => {
            let ca: i128 = if index == 0 {
                rx + rx
            } else if index == 1 || index == 5 {
                rx
            } else if index == 3 {
                -(rx + rx)
            } else {
                -rx
            };
            let sb: i128 = if index == 0 || index == 3 {
                0
            } else if index == 1 || index == 2 {
                ry
            } else {
                -ry
            };
            proof {
                assert(ca as int == (layout.rx as int) * flat_cos2(index as int));
                assert(sb as int == (layout.ry as int) * flat_sin2(index as int)) by {
                    let ryi = layout.ry as int;
                    if index == 0 || index == 3 {
                        assert(ryi * 0 == 0) by (nonlinear_arith);
                    } else if index == 1 || index == 2 {
                        assert(ryi * 1 == ryi) by (nonlinear_arith);
                    } else {
                        assert(ryi * -1 == -ryi) by (nonlinear_arith);
                    }
                }
            }
            Point { x: Exact { a: ca, b: 0, d: 2 }, y: Exact { a: 0, b: sb, d: 2 } }
        },
    }
}

/// Corner `index`: the centre point `c` plus the vertex offset.
fn corner(c: &Point, layout: &Layout, index: usize) -> (r: Point)
    requires
        layout_wf(*layout),
        index < 6,
        point_pixel(*c),
        c.x.d == 2,
        c.y.d == 2,
    ensures
        r.x.a == c.x.a + spec_vertex_offset(*layout, index as int).x.a,
        r.x.b == c.x.b + spec_vertex_offset(*layout, index as int).x.b,
        r.y.a == c.y.a + spec_vertex_offset(*layout, index as int).y.a,
        r.y.b == c.y.b + spec_vertex_offset(*layout, index as int).y.b,
        r.x.d == 2,
        r.y.d == 2,
{
    let o = vertex_offset(layout, index);
    Point {
        x: Exact { a: c.x.a + o.x.a, b: c.x.b + o.x.b, d: 2 },
        y: Exact { a: c.y.a + o.y.a, b: c.y.b + o.y.b, d: 2 },
    }
}

/// The fractional-axis numerators recovered from an in-range pixel under a
/// well-formed layout are small enough for the exact rounding machinery,
/// both absolutely and relative to the common denominator.
proof fn lemma_frac_bounds(p: Point, l: Layout)
    requires
        layout_wf(l),
        point_pixel(p),
    ensures
        3 <= frac_m(p, l) <= ROUND_LIMIT,
        iabs(frac_qu(p, l)) <= ROUND_LIMIT / 2,
        iabs(frac_qv(p, l)) <= ROUND_LIMIT / 2,
        iabs(frac_ru(p, l)) <= ROUND_LIMIT / 2,
        iabs(frac_rv(p, l)) <= ROUND_LIMIT / 2,
        iabs(frac_qu(p, l)) + 2 * iabs(frac_qv(p, l)) <= AXIS_LIMIT * frac_m(p, l),
        iabs(frac_ru(p, l)) + 2 * iabs(frac_rv(p, l)) <= AXIS_LIMIT * frac_m(p, l),
        iabs(-frac_qu(p, l) - frac_ru(p, l)) + 2 * iabs(-frac_qv(p, l) - frac_rv(p, l))
            <= AXIS_LIMIT * frac_m(p, l),
{
    let dx = p.x.d as int;
    let dy = p.y.d as int;
    let rx = l.rx as int;
    let ry = l.ry as int;
    let bx = p.x.b as int;
    let by = p.y.b as int;
    let fx = dx * rx;
    let fy = dy * ry;
    let m = frac_m(p, l);
    let sx = shifted_x(p, l);
    let sy = shifted_y(p, l);
    assert(1 <= fx <= 0x1000000 && 1 <= fy <= 0x1000000) by (nonlinear_arith)
        requires
            1 <= dx <= 4096 && 1 <= rx <= 4096 && 1 <= dy <= 4096 && 1 <= ry <= 4096 && fx == dx
                * rx && fy == dy * ry,
    ;
    assert(m == 3 * fx * fy);
    assert(3 <= m <= ROUND_LIMIT) by (nonlinear_arith)
        requires
            1 <= fx <= 0x1000000 && 1 <= fy <= 0x1000000 && m == 3 * fx * fy,
    ;
    // The origin-shifted numerators: relative to their own denominator, and
    // absolutely.
    assert(-(0x1040000 * dx) <= sx <= 0x1040000 * dx && -0x41000000 <= sx <= 0x41000000)
        by (nonlinear_arith)
        requires
            -0x1000000 <= p.x.a <= 0x1000000 && 1 <= dx <= 4096 && -262144 <= l.ox <= 262144
                && dx == p.x.d && sx == p.x.a - l.ox * p.x.d,
    ;
    assert(-(0x1040000 * dy) <= sy <= 0x1040000 * dy && -0x41000000 <= sy <= 0x41000000)
        by (nonlinear_arith)
        requires
            -0x1000000 <= p.y.a <= 0x1000000 && 1 <= dy <= 4096 && -262144 <= l.oy <= 262144
                && dy == p.y.d && sy == p.y.a - l.oy * p.y.d,
    ;
    // Product terms relative to m = 3·fx·fy, with literal coefficients.
    assert(-(0x1000000 * m) <= 3 * bx * fy <= 0x1000000 * m && -(0x1000000 * m) <= 3 * by * fx
        <= 0x1000000 * m && -(0x1000000 * m) <= 3 * (bx * fy) <= 0x1000000 * m && -(0x1000000 * m)
        <= 3 * (by * fx) <= 0x1000000 * m) by (nonlinear_arith)
        requires
            -0x1000000 <= bx <= 0x1000000 && -0x1000000 <= by <= 0x1000000 && 1 <= fx && 1 <= fy
                && m == 3 * fx * fy,
    ;
    assert(-(0x1040000 * m) <= 3 * (sx * fy) <= 0x1040000 * m && -(0x1040000 * m) <= 3 * (sy * fx)
        <= 0x1040000 * m) by (nonlinear_arith)
        requires
            -(0x1040000 * dx) <= sx <= 0x1040000 * dx && -(0x1040000 * dy) <= sy <= 0x1040000 * dy
                && 1 <= dx && 1 <= dy && 1 <= rx && 1 <= ry && fx == dx * rx && fy == dy * ry && m
                == 3 * fx * fy,
    ;
    // Product terms, absolutely.
    assert(-0x3000000000000 <= 3 * bx * fy <= 0x3000000000000 && -0x3000000000000 <= 3 * by * fx
        <= 0x3000000000000 && -0x41000000000000 <= sx * fy <= 0x41000000000000
        && -0x41000000000000 <= sy * fx <= 0x41000000000000 && -0x1000000000000 <= bx * fy
        <= 0x1000000000000 && -0x1000000000000 <= by * fx <= 0x1000000000000) by (nonlinear_arith)
        requires
            -0x1000000 <= bx <= 0x1000000 && -0x1000000 <= by <= 0x1000000 && -0x41000000 <= sx
                <= 0x41000000 && -0x41000000 <= sy <= 0x41000000 && 1 <= fx <= 0x1000000 && 1 <= fy
                <= 0x1000000,
    ;
    // Reassociations connecting the spec terms to the bounded atoms.
    assert(2 * sy * fx == 2 * (sy * fx) && 2 * by * fx == 2 * (by * fx) && 2 * sx * fy == 2 * (sx
        * fy) && 2 * bx * fy == 2 * (bx * fy)) by (nonlinear_arith);
    // 5·2^24 + 3·0x1040000 and friends, against 3·AXIS_LIMIT.
    assert(AXIS_LIMIT * m == 402653184 * m) by (nonlinear_arith)
        requires
            AXIS_LIMIT == 0x1800_0000,
    ;
    match l.orientation {
        Orientation::PointyTop => {
            assert(frac_qu(p, l) == 3 * bx * fy - sy * fx);
            assert(frac_qv(p, l) == sx * fy - by * fx);
            assert(frac_ru(p, l) == 2 * sy * fx);
            assert(frac_rv(p, l) == 2 * by * fx);
            assert(3 * (iabs(frac_qu(p, l)) + 2 * iabs(frac_qv(p, l))) <= 135004160 * m);
            assert(3 * (iabs(frac_ru(p, l)) + 2 * iabs(frac_rv(p, l))) <= 101187584 * m);
            assert(3 * (iabs(-frac_qu(p, l) - frac_ru(p, l)) + 2 * iabs(
                -frac_qv(p, l) - frac_rv(p, l),
            )) <= 236191744 * m);
        },
        Orientation::FlatTop => {
            assert(frac_qu(p, l) == 2 * sx * fy);
            assert(frac_qv(p, l) == 2 * bx * fy);
            assert(frac_ru(p, l) == 3 * by * fx - sx * fy);
            assert(frac_rv(p, l) == sy * fx - bx * fy);
            assert(3 * (iabs(frac_qu(p, l)) + 2 * iabs(frac_qv(p, l))) <= 101187584 * m);
            assert(3 * (iabs(frac_ru(p, l)) + 2 * iabs(frac_rv(p, l))) <= 135004160 * m);
            assert(3 * (iabs(-frac_qu(p, l) - frac_ru(p, l)) + 2 * iabs(
                -frac_qv(p, l) - frac_rv(p, l),
            )) <= 236191744 * m);
        },
    }
    assert(m >= 0);
    assert(3 * (402653184 * m) >= 3 * (236191744 * m));
}

/// Cube rounding of three fractional axes over one denominator `m`.
fn cube_round(uq: i128, vq: i128, ur: i128, vr: i128, us: i128, vs: i128, m: i128) -> (h: Hex)
    requires
        1 <= m <= ROUND_LIMIT,
        us == -uq - ur,
        vs == -vq - vr,
        -ROUND_LIMIT / 2 <= uq <= ROUND_LIMIT / 2,
        -ROUND_LIMIT / 2 <= vq <= ROUND_LIMIT / 2,
        -ROUND_LIMIT / 2 <= ur <= ROUND_LIMIT / 2,
        -ROUND_LIMIT / 2 <= vr <= ROUND_LIMIT / 2,
        iabs(uq as int) + 2 * iabs(vq as int) <= AXIS_LIMIT * m,
        iabs(ur as int) + 2 * iabs(vr as int) <= AXIS_LIMIT * m,
        iabs(us as int) + 2 * iabs(vs as int) <= AXIS_LIMIT * m,
    ensures
        h.q == cube_round_spec(uq as int, vq as int, ur as int, vr as int, us as int, vs as int,
        m as int).0,
        h.r == cube_round_spec(uq as int, vq as int, ur as int, vr as int, us as int, vs as int,
        m as int).1,
        hex_cube_ok(h),
        hex_in_range(h),
{
    let q0 = round3_exec(uq, vq, m);
    let r0 = round3_exec(ur, vr, m);
    let s0 = round3_exec(us, vs, m);
    proof {
        lemma_axis_bound(uq as int, vq as int, m as int, q0 as int);
        lemma_axis_bound(ur as int, vr as int, m as int, r0 as int);
        lemma_axis_bound(us as int, vs as int, m as int, s0 as int);
    }
    let equ = uq - q0 * m;
    let eru = ur - r0 * m;
    let esu = us - s0 * m;
    let q_dominates = {
        let a = abs_gt_exec(equ, vq, eru, vr);
        let b = abs_gt_exec(equ, vq, esu, vs);
        a && b
    };
    if q_dominates {
        Hex { q: (-r0 - s0) as i32, s: s0 as i32, r: r0 as i32 }
    } else {
        let r_dominates = abs_gt_exec(eru, vr, esu, vs);
        if r_dominates {
            Hex { q: q0 as i32, s: s0 as i32, r: (-q0 - s0) as i32 }
        } else {
            Hex { q: q0 as i32, s: (-q0 - r0) as i32, r: r0 as i32 }
        }
    }
}

/// A rounded axis is bounded by `AXIS_LIMIT` plus the rounding slack, and
/// its error numerator stays well inside the sign-decision range.
proof fn lemma_axis_bound(u: int, v: int, m: int, n: int)
    requires
        1 <= m <= ROUND_LIMIT,
        iabs(u) + 2 * iabs(v) <= AXIS_LIMIT * m,
        iabs(u) <= ROUND_LIMIT,
        iabs(v) <= ROUND_LIMIT,
        iabs(n) * m <= iabs(u) + 2 * iabs(v) + 3 * m,
    ensures
        iabs(n) <= AXIS_LIMIT + 3,
        iabs(u - n * m) <= SIGN_LIMIT / 4,
        iabs(n * m) <= iabs(u) + 2 * iabs(v) + 3 * m,
{
    assert(iabs(n) * m <= (AXIS_LIMIT + 3) * m) by (nonlinear_arith)
        requires
            iabs(n) * m <= iabs(u) + 2 * iabs(v) + 3 * m && iabs(u) + 2 * iabs(v) <= AXIS_LIMIT
                * m,
    ;
    assert(iabs(n) <= AXIS_LIMIT + 3) by (nonlinear_arith)
        requires
            iabs(n) * m <= (AXIS_LIMIT + 3) * m && m >= 1 && iabs(n) >= 0 && AXIS_LIMIT + 3 >= 0,
    ;
    assert(iabs(n * m) == iabs(n) * m) by (nonlinear_arith)
        requires
            m >= 1,
    ;
    assert(iabs(u - n * m) <= 2 * iabs(u) + 2 * iabs(v) + 3 * m);
    assert(7 * ROUND_LIMIT <= SIGN_LIMIT / 4);
}

/// Projecting a cell's centre and mapping the pixel back recovers the cell
/// exactly: the fractional axes come out as whole numbers with zero
/// rounding error, so cube rounding returns the cell itself.
pub proof fn lemma_projection_round_trip(h: Hex, l: Layout)
    requires
        layout_wf(l),
        hex_cube_ok(h),
        projectable(h),
    ensures
        spec_pixel2hex(spec_center(h, l), l) == h,
{
    let p = spec_center(h, l);
    let rx = l.rx as int;
    let ry = l.ry as int;
    let rr = rx * ry;
    let q = h.q as int;
    let r = h.r as int;
    assert(1 <= rr <= 0x1000000) by (nonlinear_arith)
        requires
            1 <= rx <= 4096 && 1 <= ry <= 4096 && rr == rx * ry,
    ;
    match l.orientation {
        Orientation::PointyTop => {
            lemma_mul_bound(rx, 2 * q + r, 4096, 3072);
            lemma_mul_bound(3 * ry, r, 12288, 1024);
            assert(p.x.a == 2 * l.ox && p.x.b == rx * (2 * q + r) && p.x.d == 2);
            assert(p.y.a == 3 * ry * r + 2 * l.oy && p.y.b == 0 && p.y.d == 2);
            assert(shifted_x(p, l) == 0);
            assert(shifted_y(p, l) == 3 * ry * r);
            assert(frac_m(p, l) == 12 * rr) by (nonlinear_arith)
                requires
                    frac_m(p, l) == 3 * (2 * rx) * (2 * ry) && rr == rx * ry,
            ;
            assert(frac_qu(p, l) == 12 * rr * q) by (nonlinear_arith)
                requires
                    frac_qu(p, l) == 3 * (rx * (2 * q + r)) * (2 * ry) - (3 * ry * r) * (2 * rx)
                        && rr == rx * ry,
            ;
            assert(frac_qv(p, l) == 0) by (nonlinear_arith)
                requires
                    frac_qv(p, l) == 0 * (2 * ry) - 0 * (2 * rx),
            ;
            assert(frac_ru(p, l) == 12 * rr * r) by (nonlinear_arith)
                requires
                    frac_ru(p, l) == 2 * (3 * ry * r) * (2 * rx) && rr == rx * ry,
            ;
            assert(frac_rv(p, l) == 0) by (nonlinear_arith)
                requires
                    frac_rv(p, l) == 2 * 0 * (2 * rx),
            ;
        },
        Orientation::FlatTop => {
            lemma_mul_bound(3 * rx, q, 12288, 1024);
            lemma_mul_bound(ry, q + 2 * r, 4096, 3072);
            assert(p.x.a == 3 * rx * q + 2 * l.ox && p.x.b == 0 && p.x.d == 2);
            assert(p.y.a == 2 * l.oy && p.y.b == ry * (q + 2 * r) && p.y.d == 2);
            assert(shifted_x(p, l) == 3 * rx * q);
            assert(shifted_y(p, l) == 0);
            assert(frac_m(p, l) == 12 * rr) by (nonlinear_arith)
                requires
                    frac_m(p, l) == 3 * (2 * rx) * (2 * ry) && rr == rx * ry,
            ;
            assert(frac_qu(p, l) == 12 * rr * q) by (nonlinear_arith)
                requires
                    frac_qu(p, l) == 2 * (3 * rx * q) * (2 * ry) && rr == rx * ry,
            ;
            assert(frac_qv(p, l) == 0) by (nonlinear_arith)
                requires
                    frac_qv(p, l) == 2 * 0 * (2 * ry),
            ;
            assert(frac_ru(p, l) == 12 * rr * r) by (nonlinear_arith)
                requires
                    frac_ru(p, l) == 3 * (ry * (q + 2 * r)) * (2 * rx) - (3 * rx * q) * (2 * ry)
                        && rr == rx * ry,
            ;
            assert(frac_rv(p, l) == 0) by (nonlinear_arith)
                requires
                    frac_rv(p, l) == 0 * (2 * rx) - 0 * (2 * ry),
            ;
        },
    }
    let m = 12 * rr;
    lemma_round_exact(q, m);
    lemma_round_exact(r, m);
    assert(-(12 * rr * q) - 12 * rr * r == 12 * rr * (-q - r)) by (nonlinear_arith);
    lemma_round_exact(-q - r, m);
    assert(rounded(m * q, 0, m) == q && rounded(m * r, 0, m) == r && rounded(m * (-q - r), 0, m)
        == -q - r);
    assert(m * q - q * m == 0 && m * r - r * m == 0 && m * (-q - r) - (-q - r) * m == 0)
        by (nonlinear_arith);
    assert(!abs_gt(0, 0, 0, 0));
    assert(cube_round_spec(m * q, 0, m * r, 0, m * (-q - r), 0, m) == (q, r));
    assert(frac_qu(p, l) == m * q && frac_ru(p, l) == m * r) by (nonlinear_arith)
        requires
            frac_qu(p, l) == 12 * rr * q && frac_ru(p, l) == 12 * rr * r && m == 12 * rr,
    ;
    assert(spec_pixel2hex(p, l) == hex_new(q, r));
    assert(hex_new(q, r) == h);
}

/// A whole number rounds to itself with zero error.
proof fn lemma_round_exact(k: int, m: int)
    requires
        1 <= m,
    ensures
        rounded(m * k, 0, m) == k,
{
    assert(2 * (m * k) - (2 * k - 1) * m == m) by (nonlinear_arith);
    assert(2 * (m * k) - (2 * k + 1) * m == -m) by (nonlinear_arith);
    assert(sign3(m, 0) == 1);
    assert(sign3(-m, 0) == -1);
    assert(is_rounded(m * k, 0, m, k));
    lemma_rounded_unique(m * k, 0, m, k);
}

} // verus!
