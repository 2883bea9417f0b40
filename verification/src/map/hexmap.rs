//! The hexagonal world map: every cell within a grid radius of the origin.

use vstd::prelude::*;
use crate::coordinates::iabs;
use crate::hex::{
    hex_cube_ok, hex_length, hex_new, lemma_hex_abs_sum_even, lemma_hex_abs_sum_max, Hex,
};
use crate::layout::HEX_PROJ_LIMIT;

verus! {

/// A cell of the disc of the given radius: cube-valid with every axis
/// within the radius.
pub open spec fn in_disc(h: Hex, radius: int) -> bool {
    &&& hex_cube_ok(h)
    &&& -radius <= h.q <= radius
    &&& -radius <= h.r <= radius
    &&& -radius <= h.s <= radius
}

/// Membership in the disc is exactly a grid distance from the origin of at
/// most the radius.
pub proof fn lemma_in_disc_length(h: Hex, radius: int)
    requires
        radius >= 0,
        hex_cube_ok(h),
    ensures
        in_disc(h, radius) <==> hex_length(h) <= radius,
{
    lemma_hex_abs_sum_even(h.q as int, h.r as int, h.s as int);
    lemma_hex_abs_sum_max(h.q as int, h.r as int, h.s as int);
}

/// The map of all cells within `radius` grid steps of the origin.
pub struct HexMap {
    radius: i32,
    content: Vec<Hex>,
}

impl HexMap {
    /// The map's radius.
    pub closed spec fn spec_radius(&self) -> int {
        self.radius as int
    }

    /// The map's cells.
    pub closed spec fn cells_seq(&self) -> Seq<Hex> {
        self.content@
    }

    /// Builds the full disc: exactly the cells within `radius` grid steps
    /// of the origin, each listed once.
    pub fn new(radius: i32) -> (m: HexMap)
        requires
            0 <= radius <= HEX_PROJ_LIMIT,
        ensures
            m.spec_radius() == radius,
            m.cells_seq().no_duplicates(),
            forall|h: Hex| #[trigger] m.cells_seq().contains(h) <==> in_disc(h, radius as int),
    {
        let mut content: Vec<Hex> = Vec::new();
        let mut q: i32 = -radius;
        while q <= radius
            invariant
                0 <= radius <= HEX_PROJ_LIMIT,
                -radius <= q <= radius + 1,
                content@.no_duplicates(),
                forall|h: Hex| #[trigger] content@.contains(h) <==> (in_disc(h, radius as int)
                    && h.q < q),
            decreases radius + 1 - q,
        {
            let r1 = if -radius - q > -radius {
                -radius - q
            } else {
                -radius
            };
            let r2 = if radius - q < radius {
                radius - q
            } else {
                radius
            };
            let mut r: i32 = r1;
            proof {
                assert(forall|h: Hex| #[trigger] content@.contains(h) <==> (in_disc(
                    h,
                    radius as int,
                ) && (h.q < q || (h.q == q && h.r < r1))));
            }
            while r <= r2
                invariant
                    0 <= radius <= HEX_PROJ_LIMIT,
                    -radius <= q <= radius,
                    r1 == (if -radius - q > -radius {
                        -radius - q as int
                    } else {
                        -radius as int
                    }),
                    r2 == (if radius - q < radius {
                        radius - q as int
                    } else {
                        radius as int
                    }),
                    r1 <= r <= r2 + 1,
                    content@.no_duplicates(),
                    forall|h: Hex| #[trigger] content@.contains(h) <==> (in_disc(h, radius as int)
                        && (h.q < q || (h.q == q && h.r < r))),
                decreases r2 + 1 - r,
            {
                let cell = Hex::new(q, r);
                let ghost pre = content@;
                content.push(cell);
                proof {
                    assert(content@ == pre.push(cell));
                    assert(content@[content@.len() - 1] == cell);
                    assert(in_disc(cell, radius as int));
                    assert(!pre.contains(cell));
                    assert forall|h: Hex| #[trigger] content@.contains(h) <==> (pre.contains(h)
                        || h == cell) by {
                        if content@.contains(h) {
                            let k = choose|k: int| 0 <= k < content@.len() && content@[k] == h;
                            if k < content@.len() - 1 {
                                assert(pre[k] == h);
                                assert(pre.contains(h));
                            }
                        }
                        if pre.contains(h) {
                            let k = choose|k: int| 0 <= k < pre.len() && pre[k] == h;
                            assert(content@[k] == h);
                        }
                    }
                    assert(content@.no_duplicates()) by {
                        assert forall|a: int, b: int|
                            0 <= a < b < content@.len() implies content@[a] != content@[b] by {
                            if b == content@.len() - 1 {
                                assert(pre[a] == content@[a]);
                                assert(pre.contains(content@[a]));
                            } else {
                                assert(pre[a] == content@[a] && pre[b] == content@[b]);
                            }
                        }
                    }
                    assert forall|h: Hex|
                        (in_disc(h, radius as int) && h.q == q && h.r == r) implies h
                        == cell by {
                        assert(h.s == -h.q - h.r);
                    }
                }
                r += 1;
            }
            proof {
                assert forall|h: Hex|
                    (in_disc(h, radius as int) && h.q == q) implies (r1 <= h.r <= r2) by {}
            }
            q += 1;
        }
        HexMap { radius, content }
    }

    /// The radius the map was built with.
    pub fn radius(&self) -> (r: i32)
        ensures
            r == self.spec_radius(),
    {
        self.radius
    }

    /// The cells, for rendering.
    pub fn cells(&self) -> (r: &Vec<Hex>)
        ensures
            r@ == self.cells_seq(),
    {
        &self.content
    }
}

} // verus!
