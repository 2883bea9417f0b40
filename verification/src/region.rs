//! Selection overlay: a named, categorised set of selected hex cells and
//! the minimal outline around their union.
//!
//! The outline is the symmetric difference of the six-edge sets of all
//! selected cells: because adjacent cells name their shared side by the same
//! canonical [`Edge`] identity, an edge survives exactly when an odd number
//! of selected cells claim it, which for a set of cells means exactly one —
//! interior edges shared by two selected cells cancel out.

use vstd::prelude::*;
use crate::hex::{claims, hex_cube_ok, hex_edges_of, hex_in_range, Edge, Hex};

verus! {

/// The category a selection is tinted with when drawn.
#[derive(Debug, PartialEq, Eq, Clone, Copy, Structural)]
pub enum Category {
    Neutral,
    Friendly,
    Hostile,
    Player,
}

/// A growable, clearable set of selected hex cells with a category tag.
pub struct Region {
    category: Category,
    cells: Vec<Hex>,
}

/// How many of the cells in `cells` claim the edge `e`.
pub open spec fn count_claims(cells: Seq<Hex>, e: Edge) -> nat
    decreases cells.len(),
{
    if cells.len() == 0 {
        0
    } else {
        count_claims(cells.drop_last(), e) + if claims(cells.last(), e) {
            1nat
        } else {
            0nat
        }
    }
}

/// An edge belongs to the outline of `cells` exactly when an odd number of
/// the cells claim it.
pub open spec fn in_outline(cells: Seq<Hex>, e: Edge) -> bool {
    count_claims(cells, e) % 2 == 1
}

/// The cell sequence after selecting `h`: unchanged when already selected,
/// extended otherwise.
pub open spec fn select(cells: Seq<Hex>, h: Hex) -> Seq<Hex> {
    if cells.contains(h) {
        cells
    } else {
        cells.push(h)
    }
}

impl Region {
    /// The selected cells, in insertion order, free of duplicates.
    pub closed spec fn cells_seq(&self) -> Seq<Hex> {
        self.cells@
    }

    /// The category tag.
    pub closed spec fn spec_category(&self) -> Category {
        self.category
    }

    /// Well-formedness: no cell selected twice, and every cell cube-valid
    /// and in coordinate range.
    pub open spec fn wf(&self) -> bool {
        &&& self.cells_seq().no_duplicates()
        &&& (forall|i: int|
            0 <= i < self.cells_seq().len() ==> hex_cube_ok(#[trigger] self.cells_seq()[i])
                && hex_in_range(self.cells_seq()[i]))
    }

    /// An empty selection with category `c`.
    pub fn new(c: Category) -> (r: Region)
        ensures
            r.wf(),
            r.cells_seq() == Seq::<Hex>::empty(),
            r.spec_category() == c,
    {
        Region { category: c, cells: Vec::new() }
    }

    /// The category tag of this selection.
    pub fn category(&self) -> (c: Category)
        ensures
            c == self.spec_category(),
    {
        self.category
    }

    /// The selected cells, for the fill pass of a renderer.
    pub fn cells(&self) -> (r: &Vec<Hex>)
        ensures
            r@ == self.cells_seq(),
    {
        &self.cells
    }

    /// Selects a cell. Adding a cell that is already selected changes
    /// nothing.
    pub fn push(&mut self, hex: Hex)
        requires
            old(self).wf(),
            hex_cube_ok(hex),
            hex_in_range(hex),
        ensures
            final(self).wf(),
            final(self).spec_category() == old(self).spec_category(),
            final(self).cells_seq() == select(old(self).cells_seq(), hex),
            final(self).cells_seq().contains(hex),
    {
        if !self.contains_cell(&hex) {
            self.cells.push(hex);
            proof {
                assert(self.cells@[self.cells@.len() - 1] == hex);
                assert(self.cells@.contains(hex));
            }
        }
    }

    /// Deselects everything.
    pub fn clear(&mut self)
        ensures
            final(self).wf(),
            final(self).spec_category() == old(self).spec_category(),
            final(self).cells_seq() == Seq::<Hex>::empty(),
    {
        self.cells.clear();
    }

    /// Whether `hex` is currently selected.
    fn contains_cell(&self, hex: &Hex) -> (b: bool)
        ensures
            b == self.cells_seq().contains(*hex),
    {
        let n = self.cells.len();
        let mut i: usize = 0;
        while i < n
            invariant
                n == self.cells@.len(),
                0 <= i <= n,
                forall|k: int| 0 <= k < i ==> self.cells@[k] != *hex,
            decreases n - i,
        {
            if self.cells[i] == *hex {
                return true;
            }
            i += 1;
        }
        false
    }

    /// The boundary outline of the selection: every canonical edge claimed
    /// by an odd number of selected cells (with no duplicates in the set, by
    /// exactly one cell). Shared sides of two selected cells cancel.
    pub fn outline(&self) -> (out: Vec<Edge>)
        requires
            self.wf(),
        ensures
            out@.no_duplicates(),
            forall|e: Edge| #[trigger] out@.contains(e) <==> in_outline(self.cells_seq(), e),
    {
        let mut acc: Vec<Edge> = Vec::new();
        let n = self.cells.len();
        let mut i: usize = 0;
        while i < n
            invariant
                self.wf(),
                n == self.cells@.len(),
                0 <= i <= n,
                acc@.no_duplicates(),
                forall|e: Edge| #[trigger] acc@.contains(e) <==> in_outline(
                    self.cells@.take(i as int),
                    e,
                ),
            decreases n - i,
        {
            let cell = self.cells[i];
            let edges = cell.edges();
            let ghost pre = acc@;
            let mut j: usize = 0;
            while j < 6
                invariant
                    0 <= j <= 6,
                    hex_in_range(cell),
                    edges@ == hex_edges_of(cell),
                    acc@.no_duplicates(),
                    forall|e: Edge| #[trigger] acc@.contains(e) <==> (pre.contains(e) != (
                    hex_edges_of(cell).take(j as int).contains(e))),
                decreases 6 - j,
            {
                let ej = edges[j];
                toggle(&mut acc, ej);
                proof {
                    crate::hex::lemma_hex_edges_distinct(cell);
                    let tj = hex_edges_of(cell).take(j as int);
                    let tj1 = hex_edges_of(cell).take(j as int + 1);
                    assert(tj1 == tj.push(hex_edges_of(cell)[j as int]));
                    assert(!tj.contains(ej)) by {
                        if tj.contains(ej) {
                            let k = choose|k: int| 0 <= k < tj.len() && tj[k] == ej;
                            assert(hex_edges_of(cell)[k] == hex_edges_of(cell)[j as int]);
                            assert(false);
                        }
                    }
                    assert forall|x: Edge| #[trigger] tj1.contains(x) <==> (tj.contains(x) || x
                        == ej) by {
                        if tj1.contains(x) {
                            let k = choose|k: int| 0 <= k < tj1.len() && tj1[k] == x;
                            if k < tj.len() {
                                assert(tj[k] == x);
                                assert(tj.contains(x));
                            } else {
                                assert(x == ej);
                            }
                        }
                        if tj.contains(x) {
                            let k = choose|k: int| 0 <= k < tj.len() && tj[k] == x;
                            assert(tj1[k] == x);
                            assert(tj1.contains(x));
                        }
                        if x == ej {
                            assert(tj1[j as int] == x);
                            assert(tj1.contains(x));
                        }
                    }
                }
                j += 1;
            }
            proof {
                assert(hex_edges_of(cell).take(6) == hex_edges_of(cell));
                assert(self.cells@.take(i as int + 1).drop_last() == self.cells@.take(i as int));
                assert(self.cells@.take(i as int + 1).last() == self.cells@[i as int]);
                assert forall|e: Edge| #[trigger] acc@.contains(e) <==> in_outline(
                    self.cells@.take(i as int + 1),
                    e,
                ) by {
                    lemma_count_parity_step(self.cells@.take(i as int + 1), e);
                    lemma_claims_iff_in_edges(cell, e);
                }
            }
            i += 1;
        }
        proof {
            assert(self.cells@.take(n as int) == self.cells@);
        }
        acc
    }
}

/// `claims` unfolded to membership in the six-edge sequence.
proof fn lemma_claims_iff_in_edges(h: Hex, e: Edge)
    ensures
        claims(h, e) <==> hex_edges_of(h).contains(e),
{
}

/// One step of the parity count: the parity over a non-empty prefix is the
/// parity over the shorter prefix, flipped when the last cell claims the
/// edge.
proof fn lemma_count_parity_step(cells: Seq<Hex>, e: Edge)
    requires
        cells.len() > 0,
    ensures
        in_outline(cells, e) <==> (in_outline(cells.drop_last(), e) != claims(cells.last(), e)),
{
}

/// Flips membership of `e` in the duplicate-free accumulator: removes it if
/// present, appends it otherwise.
fn toggle(acc: &mut Vec<Edge>, e: Edge)
    requires
        old(acc)@.no_duplicates(),
    ensures
        final(acc)@.no_duplicates(),
        forall|x: Edge| #[trigger] final(acc)@.contains(x) <==> (old(acc)@.contains(x) != (x
            == e)),
{
    let n = acc.len();
    let mut i: usize = 0;
    while i < n
        invariant
            old(acc)@.no_duplicates(),
            acc@ == old(acc)@,
            n == acc@.len(),
            0 <= i <= n,
            forall|k: int| 0 <= k < i ==> acc@[k] != e,
        decreases n - i,
    {
        if acc[i] == e {
            let ghost pre = acc@;
            acc.swap_remove(i);
            proof {
                assert forall|x: Edge| #[trigger] acc@.contains(x) <==> (pre.contains(x) && x
                    != e) by {
                    let removed = pre.update(i as int, pre.last()).drop_last();
                    assert(acc@ == removed);
                    if acc@.contains(x) {
                        let k = choose|k: int| 0 <= k < removed.len() && removed[k] == x;
                        if k == i {
                            assert(pre.last() == x);
                            assert(pre.contains(x));
                            assert(pre[i as int] == e);
                            assert(x != e || pre.len() - 1 == i);
                        } else {
                            assert(pre[k] == x);
                            assert(pre.contains(x));
                        }
                        assert(x != e) by {
                            if x == e {
                                let m = choose|m: int|
                                    0 <= m < pre.len() && pre[m] == e && m != i as int;
                                assert(false);
                            }
                        }
                    }
                    if pre.contains(x) && x != e {
                        let k = choose|k: int| 0 <= k < pre.len() && pre[k] == x;
                        if k < pre.len() - 1 {
                            if k == i {
                                assert(false);
                            }
                            assert(removed[k] == x);
                            assert(acc@.contains(x));
                        } else {
                            if i as int == k {
                                assert(false);
                            }
                            assert(removed[i as int] == x);
                            assert(acc@.contains(x));
                        }
                    }
                }
                lemma_no_dup_after_swap_remove(pre, i as int);
            }
            return ;
        }
        i += 1;
    }
    acc.push(e);
    proof {
        let post = acc@;
        let pre = old(acc)@;
        assert(post == pre.push(e));
        assert(post[post.len() - 1] == e);
        assert(post.contains(e));
        assert(!pre.contains(e)) by {
            if pre.contains(e) {
                let k = choose|k: int| 0 <= k < pre.len() && pre[k] == e;
                assert(false);
            }
        }
        assert forall|x: Edge| #[trigger] post.contains(x) <==> (pre.contains(x) != (x == e)) by {
            if post.contains(x) {
                let k = choose|k: int| 0 <= k < post.len() && post[k] == x;
                if k < post.len() - 1 {
                    assert(pre[k] == x);
                    assert(pre.contains(x));
                } else {
                    assert(x == e);
                }
            }
            if pre.contains(x) {
                let k = choose|k: int| 0 <= k < pre.len() && pre[k] == x;
                assert(post[k] == x);
                assert(post.contains(x));
            }
        }
        assert(post.no_duplicates()) by {
            assert forall|a: int, b: int| 0 <= a < b < post.len() implies post[a] != post[b] by {
                if b == post.len() - 1 {
                    assert(pre[a] == post[a]);
                    assert(pre.contains(post[a]));
                } else {
                    assert(pre[a] == post[a] && pre[b] == post[b]);
                }
            }
        }
    }
}

/// Removing one position by swap-remove keeps a duplicate-free sequence
/// duplicate-free.
proof fn lemma_no_dup_after_swap_remove(s: Seq<Edge>, i: int)
    requires
        s.no_duplicates(),
        0 <= i < s.len(),
    ensures
        s.update(i, s.last()).drop_last().no_duplicates(),
{
    let t = s.update(i, s.last()).drop_last();
    assert forall|a: int, b: int| 0 <= a < b < t.len() implies t[a] != t[b] by {
        if a == i {
            assert(t[a] == s[s.len() - 1]);
            assert(t[b] == s[b]);
        } else if b == i {
            assert(t[b] == s[s.len() - 1]);
            assert(t[a] == s[a]);
        } else {
            assert(t[a] == s[a]);
            assert(t[b] == s[b]);
        }
    }
}

/// Selecting a cell twice is the same as selecting it once, so the outline
/// after a repeated push equals the outline after a single push.
pub proof fn lemma_select_idempotent(cells: Seq<Hex>, h: Hex)
    ensures
        select(select(cells, h), h) == select(cells, h),
{
    if !cells.contains(h) {
        assert(cells.push(h)[cells.len() as int] == h);
        assert(cells.push(h).contains(h));
    }
}

/// Over a duplicate-free selection the claim count of an edge is the number
/// of selected cells claiming it, as a set cardinality.
proof fn lemma_count_claims_is_filter_len(s: Seq<Hex>, e: Edge)
    requires
        s.no_duplicates(),
    ensures
        s.to_set().finite(),
        count_claims(s, e) == s.to_set().filter(|c: Hex| claims(c, e)).len(),
    decreases s.len(),
{
    let f = |c: Hex| claims(c, e);
    vstd::seq_lib::seq_to_set_is_finite(s);
    if s.len() == 0 {
        assert(s.to_set() =~= Set::<Hex>::empty());
        assert(s.to_set().filter(f) =~= Set::<Hex>::empty());
    } else {
        let p = s.drop_last();
        let l = s.last();
        assert(p.no_duplicates()) by {
            assert forall|i: int, j: int| 0 <= i < j < p.len() implies p[i] != p[j] by {
                assert(s[i] == p[i] && s[j] == p[j]);
            }
        }
        lemma_count_claims_is_filter_len(p, e);
        assert(!p.contains(l)) by {
            if p.contains(l) {
                let k = choose|k: int| 0 <= k < p.len() && p[k] == l;
                assert(s[k] == s[s.len() - 1]);
                assert(false);
            }
        }
        assert(s.to_set() =~= p.to_set().insert(l)) by {
            assert forall|x: Hex| s.contains(x) implies p.contains(x) || x == l by {
                let k = choose|k: int| 0 <= k < s.len() && s[k] == x;
                if k < s.len() - 1 {
                    assert(p[k] == x);
                }
            }
            assert forall|x: Hex| p.contains(x) implies s.contains(x) by {
                let k = choose|k: int| 0 <= k < p.len() && p[k] == x;
                assert(s[k] == x);
            }
            assert(s.contains(l));
        }
        p.to_set().lemma_len_filter(f);
        if claims(l, e) {
            assert(s.to_set().filter(f) =~= p.to_set().filter(f).insert(l));
            assert(!p.to_set().filter(f).contains(l));
            vstd::set::axiom_set_insert_len(p.to_set().filter(f), l);
        } else {
            assert(s.to_set().filter(f) =~= p.to_set().filter(f));
        }
    }
}

/// The outline depends only on which cells are selected, not on the order
/// they were selected in: two duplicate-free selections with the same
/// membership have the same outline. In particular, clearing and then
/// re-selecting the same cells, in any order, restores the outline.
pub proof fn lemma_outline_membership(s1: Seq<Hex>, s2: Seq<Hex>, e: Edge)
    requires
        s1.no_duplicates(),
        s2.no_duplicates(),
        forall|h: Hex| s1.contains(h) == s2.contains(h),
    ensures
        in_outline(s1, e) == in_outline(s2, e),
{
    lemma_count_claims_is_filter_len(s1, e);
    lemma_count_claims_is_filter_len(s2, e);
    assert(s1.to_set() =~= s2.to_set());
}

/// The side shared by a selected cell and its selected neighbour is not in
/// the outline: exactly two selected cells claim it, so it cancels.
pub proof fn lemma_shared_edge_cancels(
    cells: Seq<Hex>,
    a: Hex,
    d: crate::coordinates::Direction,
)
    requires
        cells.no_duplicates(),
        forall|i: int|
            0 <= i < cells.len() ==> hex_cube_ok(#[trigger] cells[i]) && hex_in_range(cells[i]),
        cells.contains(a),
        cells.contains(crate::hex::hex_neighbour(a, d)),
        hex_cube_ok(a),
        hex_in_range(a),
        hex_in_range(crate::hex::hex_neighbour(a, d)),
        a != crate::hex::hex_neighbour(a, d),
    ensures
        !in_outline(cells, crate::hex::edge_toward(a, d)),
{
    let b = crate::hex::hex_neighbour(a, d);
    let e = crate::hex::edge_toward(a, d);
    crate::hex::lemma_shared_edge(a, d);
    assert forall|i: int| 0 <= i < cells.len() implies (claims(#[trigger] cells[i], e) <==> (
    cells[i] == a || cells[i] == b)) by {
        crate::hex::lemma_claims_characterisation(cells[i], e);
        crate::hex::lemma_claims_characterisation(a, e);
        crate::hex::lemma_claims_characterisation(b, e);
    }
    lemma_count_two_claimers(cells, e, a, b);
    assert(count_claims(cells, e) == 2);
}

/// A side of a selected cell whose neighbour across it is not selected
/// stays in the outline: exactly one selected cell claims it.
pub proof fn lemma_boundary_edge_remains(cells: Seq<Hex>, a: Hex, d: crate::coordinates::Direction)
    requires
        cells.no_duplicates(),
        forall|i: int|
            0 <= i < cells.len() ==> hex_cube_ok(#[trigger] cells[i]) && hex_in_range(cells[i]),
        cells.contains(a),
        !cells.contains(crate::hex::hex_neighbour(a, d)),
        hex_cube_ok(a),
        hex_in_range(a),
        hex_in_range(crate::hex::hex_neighbour(a, d)),
    ensures
        in_outline(cells, crate::hex::edge_toward(a, d)),
{
    let b = crate::hex::hex_neighbour(a, d);
    let e = crate::hex::edge_toward(a, d);
    crate::hex::lemma_shared_edge(a, d);
    assert forall|i: int| 0 <= i < cells.len() implies (claims(#[trigger] cells[i], e) <==> (
    cells[i] == a || cells[i] == b)) by {
        crate::hex::lemma_claims_characterisation(cells[i], e);
        crate::hex::lemma_claims_characterisation(a, e);
        crate::hex::lemma_claims_characterisation(b, e);
    }
    lemma_count_two_claimers(cells, e, a, b);
    assert(count_claims(cells, e) == 1);
}

/// When the only possible claimers of `e` are `a` and `b`, the claim count
/// over a duplicate-free sequence is the number of those two cells present.
proof fn lemma_count_two_claimers(cells: Seq<Hex>, e: Edge, a: Hex, b: Hex)
    requires
        cells.no_duplicates(),
        a != b,
        forall|i: int|
            0 <= i < cells.len() ==> (claims(#[trigger] cells[i], e) <==> (cells[i] == a
                || cells[i] == b)),
    ensures
        count_claims(cells, e) == (if cells.contains(a) {
            1nat
        } else {
            0nat
        }) + (if cells.contains(b) {
            1nat
        } else {
            0nat
        }),
    decreases cells.len(),
{
    if cells.len() == 0 {
    } else {
        let prefix = cells.drop_last();
        let last = cells.last();
        assert forall|i: int|
            0 <= i < prefix.len() implies (claims(#[trigger] prefix[i], e) <==> (prefix[i] == a
            || prefix[i] == b)) by {
            assert(prefix[i] == cells[i]);
        }
        lemma_count_two_claimers(prefix, e, a, b);
        assert(forall|i: int| 0 <= i < prefix.len() ==> #[trigger] prefix[i] != last);
        if last == a {
            assert(!prefix.contains(a));
            assert(cells.contains(a));
            assert(prefix.contains(b) == cells.contains(b)) by {
                if cells.contains(b) {
                    let k = choose|k: int| 0 <= k < cells.len() && cells[k] == b;
                    assert(k < prefix.len());
                    assert(prefix[k] == b);
                }
            }
        } else if last == b {
            assert(!prefix.contains(b));
            assert(cells.contains(b));
            assert(prefix.contains(a) == cells.contains(a)) by {
                if cells.contains(a) {
                    let k = choose|k: int| 0 <= k < cells.len() && cells[k] == a;
                    assert(k < prefix.len());
                    assert(prefix[k] == a);
                }
            }
        } else {
            assert(prefix.contains(a) == cells.contains(a)) by {
                if cells.contains(a) {
                    let k = choose|k: int| 0 <= k < cells.len() && cells[k] == a;
                    assert(k < prefix.len());
                    assert(prefix[k] == a);
                }
            }
            assert(prefix.contains(b) == cells.contains(b)) by {
                if cells.contains(b) {
                    let k = choose|k: int| 0 <= k < cells.len() && cells[k] == b;
                    assert(k < prefix.len());
                    assert(prefix[k] == b);
                }
            }
        }
    }
}

} // verus!
