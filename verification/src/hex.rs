//! Hex cells of the gameplay grid: cube-coordinate arithmetic and canonical
//! edge identities.
//!
//! [`Hex`] mirrors the cube system of [`crate::coordinates`] and adds the
//! geometry the renderer and the selection overlay need: each cell owns six
//! canonical [`Edge`] identities, chosen so that two adjacent cells name
//! their shared side by the very same identity. The screen-space projection
//! of cells and edges lives in [`crate::layout`].

use vstd::prelude::*;
use crate::coordinates::{iabs, COORD_LIMIT};
pub use crate::coordinates::Direction;

verus! {

/// Hex-grid cell, cube coordinates `(q, s, r)` with the invariant
/// `q + s + r == 0` for every value built by [`Hex::new`] or arithmetic.
#[derive(Debug, PartialEq, Eq, Hash, Clone, Copy, Structural)]
pub struct Hex {
    pub q: i32,
    pub s: i32,
    pub r: i32,
}

/// Canonical identity of one side of a hex cell: an owning axial pair
/// `(q, r)` plus a side index `p` in `0..3`. Each geometric edge of the grid
/// has exactly one canonical identity, shared by the two cells it separates.
#[derive(Debug, PartialEq, Eq, Hash, Clone, Copy, Structural)]
pub struct Edge {
    pub q: i32,
    pub r: i32,
    pub p: i32,
}

/// The cube invariant: the three axes sum to zero.
pub open spec fn hex_cube_ok(h: Hex) -> bool {
    h.q + h.s + h.r == 0
}

/// All three axes within `COORD_LIMIT`.
pub open spec fn hex_in_range(h: Hex) -> bool {
    &&& -COORD_LIMIT <= h.q <= COORD_LIMIT
    &&& -COORD_LIMIT <= h.s <= COORD_LIMIT
    &&& -COORD_LIMIT <= h.r <= COORD_LIMIT
}

/// The hex built from the axial pair `(q, r)`.
pub open spec fn hex_new(q: int, r: int) -> Hex {
    Hex { q: q as i32, s: (-q - r) as i32, r: r as i32 }
}

/// Grid distance of a cell from the origin.
pub open spec fn hex_length(h: Hex) -> int {
    (iabs(h.q as int) + iabs(h.r as int) + iabs(h.s as int)) / 2
}

/// Grid distance between two cells.
pub open spec fn hex_distance(a: Hex, b: Hex) -> int {
    (iabs(a.q - b.q) + iabs(a.r - b.r) + iabs(a.s - b.s)) / 2
}

/// The adjacent cell in direction `d`.
pub open spec fn hex_neighbour(h: Hex, d: Direction) -> Hex {
    hex_new(h.q + crate::coordinates::dir_q(d), h.r + crate::coordinates::dir_r(d))
}

/// The six canonical edge identities of cell `h`, listed counter-clockwise
/// starting from east, matching the [`Direction`] order. The first three
/// sides are owned by `h` itself; the other three are owned by the
/// neighbouring cell across them, so that adjacent cells agree on the
/// identity of their shared side.
pub open spec fn hex_edges_of(h: Hex) -> Seq<Edge> {
    seq![
        Edge { q: h.q, r: h.r, p: 0 },
        Edge { q: h.q, r: h.r, p: 1 },
        Edge { q: h.q, r: h.r, p: 2 },
        Edge { q: h.q, r: ((h.r - 1) as i32), p: 0 },
        Edge { q: ((h.q + 1) as i32), r: ((h.r - 1) as i32), p: 1 },
        Edge { q: ((h.q + 1) as i32), r: h.r, p: 2 },
    ]
}

/// Whether cell `h` has edge `e` among its six canonical edges.
pub open spec fn claims(h: Hex, e: Edge) -> bool {
    hex_edges_of(h).contains(e)
}

/// The canonical edge identity of `h`'s side toward direction `d`.
pub open spec fn edge_toward(h: Hex, d: Direction) -> Edge {
    match d {
        Direction::E => Edge { q: ((h.q + 1) as i32), r: h.r, p: 2 },
        Direction::NE => Edge { q: ((h.q + 1) as i32), r: ((h.r - 1) as i32), p: 1 },
        Direction::NW => Edge { q: h.q, r: ((h.r - 1) as i32), p: 0 },
        Direction::W => Edge { q: h.q, r: h.r, p: 2 },
        Direction::SW => Edge { q: h.q, r: h.r, p: 1 },
        Direction::SE => Edge { q: h.q, r: h.r, p: 0 },
    }
}

impl Hex {
    /// Axial constructor: `s` is derived as `-q - r`.
    pub fn new(q: i32, r: i32) -> (h: Hex)
        requires
            i32::MIN <= -(q as int) - (r as int) <= i32::MAX,
        ensures
            h == hex_new(q as int, r as int),
            hex_cube_ok(h),
            h.q == q,
            h.r == r,
    {
        let s64: i64 = -(q as i64) - (r as i64);
        Hex { q, s: s64 as i32, r }
    }

    /// The `q` axis value.
    pub fn q(&self) -> (x: i32)
        ensures
            x == self.q,
    {
        self.q
    }

    /// The `r` axis value.
    pub fn r(&self) -> (x: i32)
        ensures
            x == self.r,
    {
        self.r
    }

    /// The `s` axis value.
    pub fn s(&self) -> (x: i32)
        ensures
            x == self.s,
    {
        self.s
    }

    /// Grid distance from the origin: half the sum of absolute axis values.
    pub fn length(&self) -> (n: i32)
        requires
            hex_cube_ok(*self),
            hex_in_range(*self),
        ensures
            n == hex_length(*self),
            n >= 0,
    {
        proof {
            lemma_hex_abs_sum_even(self.q as int, self.r as int, self.s as int);
        }
        let qa: i64 = hex_abs_i64(self.q as i64);
        let ra: i64 = hex_abs_i64(self.r as i64);
        let sa: i64 = hex_abs_i64(self.s as i64);
        ((qa + ra + sa) / 2) as i32
    }

    /// Grid distance between `a` and `b`.
    pub fn distance(a: &Hex, b: &Hex) -> (n: i32)
        requires
            hex_cube_ok(*a),
            hex_cube_ok(*b),
            hex_in_range(*a),
            hex_in_range(*b),
        ensures
            n == hex_distance(*a, *b),
            n >= 0,
    {
        let dq: i64 = a.q as i64 - b.q as i64;
        let dr: i64 = a.r as i64 - b.r as i64;
        let ds: i64 = a.s as i64 - b.s as i64;
        proof {
            lemma_hex_abs_sum_even(dq as int, dr as int, ds as int);
            lemma_hex_abs_sum_max(dq as int, dr as int, ds as int);
        }
        ((hex_abs_i64(dq) + hex_abs_i64(dr) + hex_abs_i64(ds)) / 2) as i32
    }

    /// The unit vector of direction `d`, from the fixed counter-clockwise
    /// table starting at east.
    pub fn direction(d: Direction) -> (h: Hex)
        ensures
            h.q == crate::coordinates::dir_q(d),
            h.s == crate::coordinates::dir_s(d),
            h.r == crate::coordinates::dir_r(d),
            hex_cube_ok(h),
    {
        match d {
            Direction::E => Hex { q: 1, s: -1, r: 0 },
            Direction::NE => Hex { q: 1, s: 0, r: -1 },
            Direction::NW => Hex { q: 0, s: 1, r: -1 },
            Direction::W => Hex { q: -1, s: 1, r: 0 },
            Direction::SW => Hex { q: -1, s: 0, r: 1 },
            Direction::SE => Hex { q: 0, s: -1, r: 1 },
        }
    }

    /// The adjacent cell in direction `d`.
    pub fn neighbour(&self, d: Direction) -> (h: Hex)
        requires
            hex_in_range(*self),
        ensures
            h == hex_neighbour(*self, d),
            hex_cube_ok(h),
    {
        self.add(&Hex::direction(d))
    }

    /// Component-wise sum over the axial pair.
    pub fn add(&self, rhs: &Hex) -> (h: Hex)
        requires
            i32::MIN <= self.q + rhs.q <= i32::MAX,
            i32::MIN <= self.r + rhs.r <= i32::MAX,
            i32::MIN <= -(self.q + rhs.q) - (self.r + rhs.r) <= i32::MAX,
        ensures
            h == hex_new(self.q + rhs.q, self.r + rhs.r),
            hex_cube_ok(h),
    {
        let q64: i64 = self.q as i64 + rhs.q as i64;
        let r64: i64 = self.r as i64 + rhs.r as i64;
        Hex::new(q64 as i32, r64 as i32)
    }

    /// Component-wise difference over the axial pair.
    pub fn sub(&self, rhs: &Hex) -> (h: Hex)
        requires
            i32::MIN <= self.q - rhs.q <= i32::MAX,
            i32::MIN <= self.r - rhs.r <= i32::MAX,
            i32::MIN <= -(self.q - rhs.q) - (self.r - rhs.r) <= i32::MAX,
        ensures
            h == hex_new(self.q - rhs.q, self.r - rhs.r),
            hex_cube_ok(h),
    {
        let q64: i64 = self.q as i64 - rhs.q as i64;
        let r64: i64 = self.r as i64 - rhs.r as i64;
        Hex::new(q64 as i32, r64 as i32)
    }

    /// Scalar multiple over the axial pair.
    pub fn mul(&self, rhs: i32) -> (h: Hex)
        requires
            i32::MIN <= self.q * rhs <= i32::MAX,
            i32::MIN <= self.r * rhs <= i32::MAX,
            i32::MIN <= -(self.q * rhs) - (self.r * rhs) <= i32::MAX,
        ensures
            h == hex_new(self.q * rhs, self.r * rhs),
            hex_cube_ok(h),
    {
        let q64: i64 = self.q as i64 * rhs as i64;
        let r64: i64 = self.r as i64 * rhs as i64;
        Hex::new(q64 as i32, r64 as i32)
    }

    /// The six canonical edge identities of this cell, counter-clockwise
    /// from east.
    pub fn edges(&self) -> (r: [Edge; 6])
        requires
            hex_in_range(*self),
        ensures
            r@ == hex_edges_of(*self),
    {
        let e = [
            Edge { q: self.q, r: self.r, p: 0 },
            Edge { q: self.q, r: self.r, p: 1 },
            Edge { q: self.q, r: self.r, p: 2 },
            Edge { q: self.q, r: self.r - 1, p: 0 },
            Edge { q: self.q + 1, r: self.r - 1, p: 1 },
            Edge { q: self.q + 1, r: self.r, p: 2 },
        ];
        proof {
            assert(e@ =~= hex_edges_of(*self));
        }
        e
    }
}

impl Edge {
    /// An edge identity from its owning axial pair and side index.
    pub fn new(q: i32, r: i32, p: i32) -> (e: Edge)
        ensures
            e.q == q,
            e.r == r,
            e.p == p,
    {
        Edge { q, r, p }
    }

    /// The owning cell's `q` axis value.
    pub fn q(&self) -> (x: i32)
        ensures
            x == self.q,
    {
        self.q
    }

    /// The owning cell's `r` axis value.
    pub fn r(&self) -> (x: i32)
        ensures
            x == self.r,
    {
        self.r
    }

    /// The side index within the owning cell.
    pub fn p(&self) -> (x: usize)
        requires
            self.p >= 0,
        ensures
            x == self.p,
    {
        self.p as usize
    }
}

/// Absolute value on the machine integer, matching [`iabs`].
fn hex_abs_i64(x: i64) -> (r: i64)
    requires
        x != i64::MIN,
    ensures
        r == iabs(x as int),
{
    if x >= 0 {
        x
    } else {
        -x
    }
}

/// Three integers that sum to zero have absolute values of even sum.
pub proof fn lemma_hex_abs_sum_even(q: int, r: int, s: int)
    requires
        q + r + s == 0,
    ensures
        (iabs(q) + iabs(r) + iabs(s)) % 2 == 0,
{
}

/// Three integers that sum to zero have absolute values summing to at most
/// twice the largest of them.
pub proof fn lemma_hex_abs_sum_max(q: int, r: int, s: int)
    requires
        q + r + s == 0,
    ensures
        iabs(q) + iabs(r) + iabs(s) <= 2 * iabs(q) || iabs(q) + iabs(r) + iabs(s) <= 2 * iabs(
            r,
        ) || iabs(q) + iabs(r) + iabs(s) <= 2 * iabs(s),
{
}

/// A cell is at grid distance zero from itself.
pub proof fn lemma_hex_distance_self(a: Hex)
    ensures
        hex_distance(a, a) == 0,
{
}

/// Grid distance between cells is symmetric.
pub proof fn lemma_hex_distance_symmetric(a: Hex, b: Hex)
    ensures
        hex_distance(a, b) == hex_distance(b, a),
{
}

/// The six canonical edges of an in-range cell are pairwise distinct.
pub proof fn lemma_hex_edges_distinct(h: Hex)
    requires
        hex_in_range(h),
    ensures
        forall|i: int, j: int|
            0 <= i < j < 6 ==> hex_edges_of(h)[i] != hex_edges_of(h)[j],
{
}

/// A cell claims exactly its six canonical edges, and an edge identity is
/// claimed exactly by the two cells it separates: for cube-valid cells,
/// `claims(h, e)` holds precisely when `h` is one of the two axial owners of
/// `e`.
pub proof fn lemma_claims_characterisation(h: Hex, e: Edge)
    requires
        hex_cube_ok(h),
        hex_in_range(h),
    ensures
        claims(h, e) <==> ((h.q == e.q && h.r == e.r && (e.p == 0 || e.p == 1 || e.p == 2)) || (
        e.p == 0 && h.q == e.q && h.r == e.r + 1) || (e.p == 1 && h.q == e.q - 1 && h.r == e.r + 1)
            || (e.p == 2 && h.q == e.q - 1 && h.r == e.r)),
{
    if claims(h, e) {
        let i = choose|i: int| 0 <= i < 6 && hex_edges_of(h)[i] == e;
    }
    let es = hex_edges_of(h);
    if h.q == e.q && h.r == e.r && (e.p == 0 || e.p == 1 || e.p == 2) {
        assert(es.contains(e)) by {
            if e.p == 0 {
                assert(es[0] == e);
            } else if e.p == 1 {
                assert(es[1] == e);
            } else {
                assert(es[2] == e);
            }
        }
    }
    if e.p == 0 && h.q == e.q && h.r == e.r + 1 {
        assert(es[3] == e);
        assert(es.contains(e));
    }
    if e.p == 1 && h.q == e.q - 1 && h.r == e.r + 1 {
        assert(es[4] == e);
        assert(es.contains(e));
    }
    if e.p == 2 && h.q == e.q - 1 && h.r == e.r {
        assert(es[5] == e);
        assert(es.contains(e));
    }
}

/// Adjacent cells agree on the identity of their shared side: the edge of
/// `h` toward `d` is the edge of the neighbour toward the opposite
/// direction, and both cells claim it.
pub proof fn lemma_shared_edge(h: Hex, d: Direction)
    requires
        hex_cube_ok(h),
        hex_in_range(h),
    ensures
        edge_toward(h, d) == edge_toward(hex_neighbour(h, d), crate::coordinates::opposite(d)),
        claims(h, edge_toward(h, d)),
        claims(hex_neighbour(h, d), edge_toward(h, d)),
{
    let e = edge_toward(h, d);
    let n = hex_neighbour(h, d);
    let es = hex_edges_of(h);
    let ns = hex_edges_of(n);
    match d {
        Direction::E => {
            assert(es[5] == e);
            assert(ns[2] == e);
        },
        Direction::NE => {
            assert(es[4] == e);
            assert(ns[1] == e);
        },
        Direction::NW => {
            assert(es[3] == e);
            assert(ns[0] == e);
        },
        Direction::W => {
            assert(es[2] == e);
            assert(ns[5] == e);
        },
        Direction::SW => {
            assert(es[1] == e);
            assert(ns[4] == e);
        },
        Direction::SE => {
            assert(es[0] == e);
            assert(ns[3] == e);
        },
    }
    assert(es.contains(e)) by {
        assert(exists|i: int| 0 <= i < 6 && es[i] == e);
    }
    assert(ns.contains(e)) by {
        assert(exists|i: int| 0 <= i < 6 && ns[i] == e);
    }
}

} // verus!
