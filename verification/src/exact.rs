//! Exact screen-space scalars.
//!
//! Every pixel coordinate the two canonical hex orientations can produce —
//! matrix entries built from `√3`, halves and thirds, scaled by whole-pixel
//! radii and origins — lies in the ring of values `(a + b·√3) / d` with
//! integer `a`, `b` and positive integer `d`. [`Exact`] represents such a
//! value by that triple, so the layout projection needs no floating point
//! and the pixel-to-hex rounding can be specified and verified exactly.
//!
//! The sign of `u + v·√3` is decided by comparing `u²` with `3·v²` when the
//! two terms pull in different directions; every comparison, floor and
//! round-to-nearest below reduces to that decision.

use vstd::prelude::*;
use crate::coordinates::iabs;

verus! {

/// Largest magnitude accepted by the executable sign decision: squares of
/// such values still fit the machine integer.
pub const SIGN_LIMIT: i128 = 0x4000_0000_0000_0000;

/// Largest magnitude accepted by the executable round-to-nearest.
pub const ROUND_LIMIT: i128 = 0x200_0000_0000_0000;

/// The exact value `(a + b·√3) / d`; meaningful when `d >= 1`.
#[derive(Debug, PartialEq, Eq, Clone, Copy, Structural)]
pub struct Exact {
    /// Rational numerator.
    pub a: i128,
    /// Numerator of the `√3` coefficient.
    pub b: i128,
    /// Common positive denominator.
    pub d: i128,
}

/// A meaningful scalar: positive denominator.
pub open spec fn exact_valid(x: Exact) -> bool {
    x.d >= 1
}

/// The sign of `u + v·√3`: where `u` and `v` pull the same way it is their
/// common sign; where they differ, the larger of `u²` and `3·v²` decides.
/// (`u² == 3·v²` cannot occur for `v != 0`; that case is defined
/// symmetrically and never reached.)
pub open spec fn sign3(u: int, v: int) -> int {
    if u == 0 && v == 0 {
        0
    } else if u >= 0 && v >= 0 {
        1
    } else if u <= 0 && v <= 0 {
        -1
    } else if u > 0 {
        if u * u > 3 * v * v {
            1
        } else if u * u == 3 * v * v {
            0
        } else {
            -1
        }
    } else {
        if 3 * v * v > u * u {
            1
        } else if 3 * v * v == u * u {
            0
        } else {
            -1
        }
    }
}

/// Negating both coefficients negates the sign.
pub proof fn lemma_sign3_neg(u: int, v: int)
    ensures
        sign3(-u, -v) == -sign3(u, v),
{
    assert((-u) * (-u) == u * u) by (nonlinear_arith);
    assert(3 * (-v) * (-v) == 3 * v * v) by (nonlinear_arith);
}

/// The sign grows with the rational part.
pub proof fn lemma_sign3_mono(u1: int, u2: int, v: int)
    requires
        u1 <= u2,
    ensures
        sign3(u1, v) <= sign3(u2, v),
{
    if v > 0 {
        if u1 < 0 && u2 < 0 {
            assert(u2 * u2 <= u1 * u1) by (nonlinear_arith)
                requires
                    u1 <= u2 < 0,
            ;
        }
    } else if v < 0 {
        if u1 > 0 && u2 > 0 {
            assert(u1 * u1 <= u2 * u2) by (nonlinear_arith)
                requires
                    0 < u1 <= u2,
            ;
        }
    }
}

/// A rational part beyond twice the `√3` coefficient's magnitude fixes the
/// sign: positive side.
pub proof fn lemma_sign3_pos(u: int, v: int)
    requires
        u >= 2 * iabs(v) + 1,
    ensures
        sign3(u, v) == 1,
{
    if v < 0 {
        assert(u * u > 3 * v * v) by (nonlinear_arith)
            requires
                u >= 2 * (-v) + 1 && v < 0,
        ;
    }
}

/// A rational part beyond twice the `√3` coefficient's magnitude fixes the
/// sign: negative side.
pub proof fn lemma_sign3_neg_dominant(u: int, v: int)
    requires
        u <= -(2 * iabs(v) + 1),
    ensures
        sign3(u, v) == -1,
{
    lemma_sign3_pos(-u, -v);
    lemma_sign3_neg(u, v);
}

/// Executable sign decision, squaring only where signs mix.
pub fn sign3_exec(u: i128, v: i128) -> (r: i32)
    requires
        -SIGN_LIMIT <= u <= SIGN_LIMIT,
        -SIGN_LIMIT <= v <= SIGN_LIMIT,
    ensures
        r as int == sign3(u as int, v as int),
        -1 <= r <= 1,
{
    if u == 0 && v == 0 {
        0
    } else if u >= 0 && v >= 0 {
        1
    } else if u <= 0 && v <= 0 {
        -1
    } else {
        proof {
            assert(u * u <= SIGN_LIMIT * SIGN_LIMIT) by (nonlinear_arith)
                requires
                    -SIGN_LIMIT <= u <= SIGN_LIMIT,
            ;
            assert(v * v <= SIGN_LIMIT * SIGN_LIMIT) by (nonlinear_arith)
                requires
                    -SIGN_LIMIT <= v <= SIGN_LIMIT,
            ;
            assert(u * u >= 0) by (nonlinear_arith);
            assert(v * v >= 0) by (nonlinear_arith);
            assert(3 * ((v as int) * (v as int)) == 3 * (v as int) * (v as int))
                by (nonlinear_arith);
        }
        let uu = u * u;
        let vv3 = 3 * (v * v);
        if u > 0 {
            if uu > vv3 {
                1
            } else if uu == vv3 {
                0
            } else {
                -1
            }
        } else {
            if vv3 > uu {
                1
            } else if vv3 == uu {
                0
            } else {
                -1
            }
        }
    }
}

/// Absolute value on the machine integer.
pub fn abs128(x: i128) -> (r: i128)
    requires
        x != i128::MIN,
    ensures
        r == iabs(x as int),
{
    if x >= 0 {
        x
    } else {
        -x
    }
}

/// The floor of `(u + v·√3) / m`, found by binary search over the sign
/// decision.
pub fn floor3_exec(u: i128, v: i128, m: i128) -> (n: i128)
    requires
        1 <= m,
        iabs(u as int) + 2 * iabs(v as int) + 2 * m <= SIGN_LIMIT / 2,
    ensures
        sign3(u - n * m, v as int) >= 0,
        sign3(u - (n + 1) * m, v as int) < 0,
        iabs(n as int) * m <= iabs(u as int) + 2 * iabs(v as int) + 2 * m,
{
    let au = abs128(u);
    let av = abs128(v);
    let bound: i128 = (au + 2 * av) / m + 2;
    proof {
        let x = au as int + 2 * (av as int);
        let mi = m as int;
        vstd::arithmetic::div_mod::lemma_fundamental_div_mod(x, mi);
        vstd::arithmetic::div_mod::lemma_mod_bound(x, mi);
        assert(bound == x / mi + 2);
        assert(bound * m == (x / mi) * mi + 2 * mi) by (nonlinear_arith)
            requires
                bound == x / mi + 2 && m == mi,
        ;
        assert(x + m + 1 <= bound * m <= x + 2 * m);
        assert(u + bound * m >= 2 * av + 1);
        lemma_sign3_pos(u + bound * m, v as int);
        assert(u - (-bound) * m == u + bound * m) by (nonlinear_arith);
        lemma_sign3_neg_dominant(u - bound * m, v as int);
        assert(bound <= bound * m) by (nonlinear_arith)
            requires
                bound >= 1 && m >= 1,
        ;
    }
    let mut lo: i128 = -bound;
    let mut hi: i128 = bound;
    while hi - lo > 1
        invariant
            1 <= m,
            iabs(u as int) + 2 * iabs(v as int) + 2 * m <= SIGN_LIMIT / 2,
            lo < hi,
            -bound <= lo,
            hi <= bound,
            1 <= bound <= SIGN_LIMIT,
            bound * m <= iabs(u as int) + 2 * iabs(v as int) + 2 * m,
            sign3(u - lo * m, v as int) >= 0,
            sign3(u - hi * m, v as int) < 0,
        decreases hi - lo,
    {
        let mid = lo + (hi - lo) / 2;
        proof {
            assert(lo < mid < hi);
            assert(mid * m <= bound * m && -(bound * m) <= mid * m) by (nonlinear_arith)
                requires
                    -bound <= mid <= bound && m >= 1,
            ;
        }
        let sm = sign3_exec(u - mid * m, v);
        if sm >= 0 {
            lo = mid;
        } else {
            hi = mid;
        }
    }
    proof {
        assert(hi == lo + 1);
        assert(iabs(lo as int) <= bound);
        assert(iabs(lo as int) * m <= bound * m) by (nonlinear_arith)
            requires
                iabs(lo as int) <= bound && m >= 1,
        ;
    }
    lo
}

/// `n` is the rounding of `(u + v·√3) / m` to the nearest integer, halves
/// away from zero: a non-negative value lies in `[n - 1/2, n + 1/2)`, a
/// negative one in `(n - 1/2, n + 1/2]`.
pub open spec fn is_rounded(u: int, v: int, m: int, n: int) -> bool {
    if sign3(u, v) >= 0 {
        sign3(2 * u - (2 * n - 1) * m, 2 * v) >= 0 && sign3(2 * u - (2 * n + 1) * m, 2 * v) < 0
    } else {
        sign3(2 * u - (2 * n - 1) * m, 2 * v) > 0 && sign3(2 * u - (2 * n + 1) * m, 2 * v) <= 0
    }
}

/// The rounding of `(u + v·√3) / m` to the nearest integer, halves away
/// from zero.
pub open spec fn rounded(u: int, v: int, m: int) -> int {
    choose|n: int| is_rounded(u, v, m, n)
}

/// At most one integer satisfies the rounding window, so a witness pins
/// down [`rounded`].
pub proof fn lemma_rounded_unique(u: int, v: int, m: int, n: int)
    requires
        m >= 1,
        is_rounded(u, v, m, n),
    ensures
        rounded(u, v, m) == n,
{
    let n2 = rounded(u, v, m);
    assert(is_rounded(u, v, m, n2));
    if n2 != n {
        if n2 > n {
            assert((2 * n + 1) * m <= (2 * n2 - 1) * m) by (nonlinear_arith)
                requires
                    n2 >= n + 1 && m >= 1,
            ;
            lemma_sign3_mono(2 * u - (2 * n2 - 1) * m, 2 * u - (2 * n + 1) * m, 2 * v);
        } else {
            assert((2 * n2 + 1) * m <= (2 * n - 1) * m) by (nonlinear_arith)
                requires
                    n >= n2 + 1 && m >= 1,
            ;
            lemma_sign3_mono(2 * u - (2 * n - 1) * m, 2 * u - (2 * n2 + 1) * m, 2 * v);
        }
        assert(false);
    }
}

/// Executable round-to-nearest, halves away from zero, of
/// `(u + v·√3) / m`.
pub fn round3_exec(u: i128, v: i128, m: i128) -> (n: i128)
    requires
        -ROUND_LIMIT <= u <= ROUND_LIMIT,
        -ROUND_LIMIT <= v <= ROUND_LIMIT,
        1 <= m <= ROUND_LIMIT,
    ensures
        is_rounded(u as int, v as int, m as int, n as int),
        n as int == rounded(u as int, v as int, m as int),
        iabs(n as int) * m <= iabs(u as int) + 2 * iabs(v as int) + 3 * m,
{
    let s = sign3_exec(u, v);
    let n: i128;
    proof {
        assert(iabs(2 * u + m) + 2 * iabs(2 * v as int) + 2 * (2 * m) <= SIGN_LIMIT / 2);
        assert(iabs(-2 * u + m) + 2 * iabs(-2 * v as int) + 2 * (2 * m) <= SIGN_LIMIT / 2);
    }
    if s >= 0 {
        let f = floor3_exec(2 * u + m, 2 * v, 2 * m);
        proof {
            assert((2 * u + m) - f * (2 * m) == 2 * u - (2 * f - 1) * m) by (nonlinear_arith);
            assert((2 * u + m) - (f + 1) * (2 * m) == 2 * u - (2 * f + 1) * m) by (nonlinear_arith);
            assert(iabs(f as int) * (2 * m) <= iabs(2 * u + m) + 2 * iabs(2 * v as int) + 2 * (2
                * m));
            assert(2 * (iabs(f as int) * m) == iabs(f as int) * (2 * m)) by (nonlinear_arith);
        }
        n = f;
    } else {
        let f = floor3_exec(-2 * u + m, -2 * v, 2 * m);
        proof {
            assert((-2 * u + m) - f * (2 * m) == -(2 * u - (-2 * f + 1) * m)) by (nonlinear_arith);
            assert((-2 * u + m) - (f + 1) * (2 * m) == -(2 * u - (-2 * f - 1) * m))
                by (nonlinear_arith);
            lemma_sign3_neg(2 * u - (-2 * f + 1) * m, 2 * v);
            lemma_sign3_neg(2 * u - (-2 * f - 1) * m, 2 * v);
            assert((2 * (-f) + 1) * m == (-2 * f + 1) * m) by (nonlinear_arith);
            assert((2 * (-f) - 1) * m == (-2 * f - 1) * m) by (nonlinear_arith);
            assert(iabs(f as int) * (2 * m) <= iabs(-2 * u + m) + 2 * iabs(-2 * v as int) + 2 * (2
                * m));
            assert(2 * (iabs(f as int) * m) == iabs(f as int) * (2 * m)) by (nonlinear_arith);
            assert(iabs(f as int) <= iabs(f as int) * (2 * m)) by (nonlinear_arith)
                requires
                    m >= 1 && iabs(f as int) >= 0,
            ;
        }
        n = -f;
    }
    proof {
        lemma_rounded_unique(u as int, v as int, m as int, n as int);
    }
    n
}

/// `|x| > |y|` for two values over one denominator, decided without
/// dividing: the product of the signs of `x - y` and `x + y` is the sign of
/// `x² - y²`.
pub open spec fn abs_gt(u1: int, v1: int, u2: int, v2: int) -> bool {
    sign3(u1 - u2, v1 - v2) * sign3(u1 + u2, v1 + v2) > 0
}

/// Executable form of [`abs_gt`].
pub fn abs_gt_exec(u1: i128, v1: i128, u2: i128, v2: i128) -> (r: bool)
    requires
        -SIGN_LIMIT / 2 <= u1 <= SIGN_LIMIT / 2,
        -SIGN_LIMIT / 2 <= v1 <= SIGN_LIMIT / 2,
        -SIGN_LIMIT / 2 <= u2 <= SIGN_LIMIT / 2,
        -SIGN_LIMIT / 2 <= v2 <= SIGN_LIMIT / 2,
    ensures
        r == abs_gt(u1 as int, v1 as int, u2 as int, v2 as int),
{
    let s1 = sign3_exec(u1 - u2, v1 - v2);
    let s2 = sign3_exec(u1 + u2, v1 + v2);
    let r = (s1 > 0 && s2 > 0) || (s1 < 0 && s2 < 0);
    proof {
        assert((s1 as int) * (s2 as int) > 0 <==> ((s1 > 0 && s2 > 0) || (s1 < 0 && s2 < 0)))
            by (nonlinear_arith)
            requires
                -1 <= s1 <= 1 && -1 <= s2 <= 1,
        ;
    }
    r
}

impl Exact {
    /// The whole number `n` as an exact scalar.
    pub fn from_int(n: i64) -> (x: Exact)
        ensures
            x.a == n,
            x.b == 0,
            x.d == 1,
            exact_valid(x),
    {
        Exact { a: n as i128, b: 0, d: 1 }
    }

    /// The rational `n / den` as an exact scalar.
    pub fn ratio(n: i64, den: i64) -> (x: Exact)
        requires
            den >= 1,
        ensures
            x.a == n,
            x.b == 0,
            x.d == den,
            exact_valid(x),
    {
        Exact { a: n as i128, b: 0, d: den as i128 }
    }
}

} // verus!
