//! Hex-grid coordinates in the cube system.
//!
//! A cell is addressed by three integers `(q, s, r)` under the invariant
//! `q + s + r == 0`; only two axes are independent, and `s` is always derived
//! as `-q - r`. The six neighbour directions are listed counter-clockwise
//! starting from east, and that order is relied upon by the edge and vertex
//! indexing of the layout geometry.

use vstd::prelude::*;

verus! {

/// Coordinates further than this from the origin on any axis are rejected by
/// the executable operations, so that sums of absolute values stay inside
/// `i32`.
pub const COORD_LIMIT: i32 = 1_000_000_000;

/// Hex-grid coordinate, cube system. The invariant `q + s + r == 0` holds of
/// every value built by [`Coordinates::new`] and is preserved by all
/// arithmetic.
#[derive(Debug, PartialEq, Eq, Hash, Clone, Copy, Structural)]
pub struct Coordinates {
    pub q: i32,
    pub s: i32,
    pub r: i32,
}

/// The six neighbour directions of a pointy-top hex cell, counter-clockwise
/// starting from east.
#[derive(Debug, PartialEq, Eq, Hash, Clone, Copy, Structural)]
pub enum Direction {
    E,
    NE,
    NW,
    W,
    SW,
    SE,
}

/// The cube invariant: the three axes sum to zero.
pub open spec fn cube_ok(c: Coordinates) -> bool {
    c.q + c.s + c.r == 0
}

/// All three axes within `COORD_LIMIT`, so that lengths and differences fit
/// the machine integers.
pub open spec fn in_range(c: Coordinates) -> bool {
    &&& -COORD_LIMIT <= c.q <= COORD_LIMIT
    &&& -COORD_LIMIT <= c.s <= COORD_LIMIT
    &&& -COORD_LIMIT <= c.r <= COORD_LIMIT
}

/// Absolute value over the mathematical integers.
pub open spec fn iabs(x: int) -> int {
    if x >= 0 {
        x
    } else {
        -x
    }
}

/// `q` component of the unit vector of a direction.
pub open spec fn dir_q(d: Direction) -> int {
    match d {
        Direction::E => 1,
        Direction::NE => 1,
        Direction::NW => 0,
        Direction::W => -1,
        Direction::SW => -1,
        Direction::SE => 0,
    }
}

/// `s` component of the unit vector of a direction.
pub open spec fn dir_s(d: Direction) -> int {
    match d {
        Direction::E => -1,
        Direction::NE => 0,
        Direction::NW => 1,
        Direction::W => 1,
        Direction::SW => 0,
        Direction::SE => -1,
    }
}

/// `r` component of the unit vector of a direction.
pub open spec fn dir_r(d: Direction) -> int {
    match d {
        Direction::E => 0,
        Direction::NE => -1,
        Direction::NW => -1,
        Direction::W => 0,
        Direction::SW => 1,
        Direction::SE => 1,
    }
}

/// The direction pointing the opposite way.
pub open spec fn opposite(d: Direction) -> Direction {
    match d {
        Direction::E => Direction::W,
        Direction::NE => Direction::SW,
        Direction::NW => Direction::SE,
        Direction::W => Direction::E,
        Direction::SW => Direction::NE,
        Direction::SE => Direction::NW,
    }
}

/// The coordinate built from the axial pair `(q, r)`.
pub open spec fn spec_new(q: int, r: int) -> Coordinates {
    Coordinates { q: q as i32, s: (-q - r) as i32, r: r as i32 }
}

/// Grid distance of a coordinate from the origin: half the sum of the three
/// absolute axis values (even whenever the cube invariant holds).
pub open spec fn spec_length(c: Coordinates) -> int {
    (iabs(c.q as int) + iabs(c.r as int) + iabs(c.s as int)) / 2
}

/// Grid distance between two cells: the length of their difference.
pub open spec fn spec_distance(a: Coordinates, b: Coordinates) -> int {
    (iabs(a.q - b.q) + iabs(a.r - b.r) + iabs(a.s - b.s)) / 2
}

/// The cell one step from `c` in direction `d`, with `s` re-derived from the
/// new axial pair.
pub open spec fn spec_neighbour(c: Coordinates, d: Direction) -> Coordinates {
    spec_new(c.q + dir_q(d), c.r + dir_r(d))
}

impl Coordinates {
    /// Axial constructor: `s` is derived as `-q - r`.
    pub fn new(q: i32, r: i32) -> (c: Coordinates)
        requires
            i32::MIN <= -(q as int) - (r as int) <= i32::MAX,
        ensures
            c == spec_new(q as int, r as int),
            cube_ok(c),
            c.q == q,
            c.r == r,
    {
        let s64: i64 = -(q as i64) - (r as i64);
        Coordinates { q, s: s64 as i32, r }
    }

    /// The `q` axis value.
    pub fn q(&self) -> (x: i32)
        ensures
            x == self.q,
    {
        self.q
    }

    /// The `r` axis value.
    pub fn r(&self) -> (x: i32)
        ensures
            x == self.r,
    {
        self.r
    }

    /// The `s` axis value.
    pub fn s(&self) -> (x: i32)
        ensures
            x == self.s,
    {
        self.s
    }

    /// Grid distance from the origin.
    pub fn length(&self) -> (n: i32)
        requires
            cube_ok(*self),
            in_range(*self),
        ensures
            n == spec_length(*self),
            n >= 0,
            2 * n == iabs(self.q as int) + iabs(self.r as int) + iabs(self.s as int),
    {
        proof {
            lemma_abs_sum_even(self.q as int, self.r as int, self.s as int);
        }
        let qa: i64 = abs_i64(self.q as i64);
        let ra: i64 = abs_i64(self.r as i64);
        let sa: i64 = abs_i64(self.s as i64);
        ((qa + ra + sa) / 2) as i32
    }

    /// Grid distance between `a` and `b`.
    pub fn distance(a: &Coordinates, b: &Coordinates) -> (n: i32)
        requires
            cube_ok(*a),
            cube_ok(*b),
            in_range(*a),
            in_range(*b),
        ensures
            n == spec_distance(*a, *b),
            n >= 0,
    {
        let dq: i64 = a.q as i64 - b.q as i64;
        let dr: i64 = a.r as i64 - b.r as i64;
        let ds: i64 = a.s as i64 - b.s as i64;
        proof {
            lemma_abs_sum_even(dq as int, dr as int, ds as int);
            lemma_abs_sum_max(dq as int, dr as int, ds as int);
        }
        ((abs_i64(dq) + abs_i64(dr) + abs_i64(ds)) / 2) as i32
    }

    /// The unit vector of direction `d`, from the fixed counter-clockwise
    /// table starting at east.
    pub fn direction(d: Direction) -> (c: Coordinates)
        ensures
            c.q == dir_q(d),
            c.s == dir_s(d),
            c.r == dir_r(d),
            cube_ok(c),
    {
        match d {
            Direction::E => Coordinates { q: 1, s: -1, r: 0 },
            Direction::NE => Coordinates { q: 1, s: 0, r: -1 },
            Direction::NW => Coordinates { q: 0, s: 1, r: -1 },
            Direction::W => Coordinates { q: -1, s: 1, r: 0 },
            Direction::SW => Coordinates { q: -1, s: 0, r: 1 },
            Direction::SE => Coordinates { q: 0, s: -1, r: 1 },
        }
    }

    /// The adjacent cell in direction `d`.
    pub fn neighbour(&self, d: Direction) -> (c: Coordinates)
        requires
            in_range(*self),
        ensures
            c == spec_neighbour(*self, d),
            cube_ok(c),
    {
        self.add(&Coordinates::direction(d))
    }

    /// Component-wise sum over the axial pair; `s` is re-derived, so the cube
    /// invariant holds of the result.
    pub fn add(&self, rhs: &Coordinates) -> (c: Coordinates)
        requires
            i32::MIN <= self.q + rhs.q <= i32::MAX,
            i32::MIN <= self.r + rhs.r <= i32::MAX,
            i32::MIN <= -(self.q + rhs.q) - (self.r + rhs.r) <= i32::MAX,
        ensures
            c == spec_new(self.q + rhs.q, self.r + rhs.r),
            cube_ok(c),
    {
        let q64: i64 = self.q as i64 + rhs.q as i64;
        let r64: i64 = self.r as i64 + rhs.r as i64;
        Coordinates::new(q64 as i32, r64 as i32)
    }

    /// Component-wise difference over the axial pair.
    pub fn sub(&self, rhs: &Coordinates) -> (c: Coordinates)
        requires
            i32::MIN <= self.q - rhs.q <= i32::MAX,
            i32::MIN <= self.r - rhs.r <= i32::MAX,
            i32::MIN <= -(self.q - rhs.q) - (self.r - rhs.r) <= i32::MAX,
        ensures
            c == spec_new(self.q - rhs.q, self.r - rhs.r),
            cube_ok(c),
    {
        let q64: i64 = self.q as i64 - rhs.q as i64;
        let r64: i64 = self.r as i64 - rhs.r as i64;
        Coordinates::new(q64 as i32, r64 as i32)
    }

    /// Scalar multiple over the axial pair.
    pub fn mul(&self, rhs: i32) -> (c: Coordinates)
        requires
            i32::MIN <= self.q * rhs <= i32::MAX,
            i32::MIN <= self.r * rhs <= i32::MAX,
            i32::MIN <= -(self.q * rhs) - (self.r * rhs) <= i32::MAX,
        ensures
            c == spec_new(self.q * rhs, self.r * rhs),
            cube_ok(c),
    {
        let q64: i64 = self.q as i64 * rhs as i64;
        let r64: i64 = self.r as i64 * rhs as i64;
        Coordinates::new(q64 as i32, r64 as i32)
    }
}

/// Absolute value on the machine integer, matching [`iabs`].
fn abs_i64(x: i64) -> (r: i64)
    requires
        x != i64::MIN,
    ensures
        r == iabs(x as int),
{
    if x >= 0 {
        x
    } else {
        -x
    }
}

/// Three integers that sum to zero have absolute values of even sum, so the
/// halving in `spec_length` and `spec_distance` is exact.
proof fn lemma_abs_sum_even(q: int, r: int, s: int)
    requires
        q + r + s == 0,
    ensures
        (iabs(q) + iabs(r) + iabs(s)) % 2 == 0,
{
}

/// Three integers that sum to zero have absolute values summing to twice the
/// largest of them, which bounds the halved sum by the largest single axis.
proof fn lemma_abs_sum_max(q: int, r: int, s: int)
    requires
        q + r + s == 0,
    ensures
        iabs(q) + iabs(r) + iabs(s) <= 2 * iabs(q) || iabs(q) + iabs(r) + iabs(s) <= 2 * iabs(
            r,
        ) || iabs(q) + iabs(r) + iabs(s) <= 2 * iabs(s),
{
}

/// A cell is at distance zero from itself.
pub proof fn lemma_distance_self(a: Coordinates)
    ensures
        spec_distance(a, a) == 0,
{
}

/// Grid distance is symmetric.
pub proof fn lemma_distance_symmetric(a: Coordinates, b: Coordinates)
    ensures
        spec_distance(a, b) == spec_distance(b, a),
{
}

/// Stepping to a neighbour and back along the opposite direction returns to
/// the starting cell, for every cell satisfying the cube invariant.
pub proof fn lemma_neighbour_opposite(c: Coordinates, d: Direction)
    requires
        cube_ok(c),
        in_range(c),
    ensures
        spec_neighbour(spec_neighbour(c, d), opposite(d)) == c,
{
}

} // verus!
