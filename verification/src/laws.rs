//! The properties the library promises, as proved statements.

use vstd::prelude::*;
use crate::rng::draw_at;
use crate::model::{
    Stone, grid_laid_out, x_offset_of, y_offset_of, rotation_of, offset_bound, rotation_bound,
    stone_perturbed,
};

verus! {

/// The perturbation triples (stored x offset, y offset, rotation) that a
/// recompute writes over the stones of `g`, for a given seed and
/// adjustments.  `GridState::recompute` ensures its grid carries exactly
/// these values.
pub open spec fn perturbations(g: Seq<Stone>, seed: u64, d: int, r: int) -> Seq<(int, int, int)> {
    Seq::new(
        g.len(),
        |i: int|
            (
                x_offset_of(seed, d, g[i].y as int, i),
                y_offset_of(seed, d, g[i].y as int, i),
                rotation_of(seed, r, g[i].y as int, i),
            ),
    )
}

/// Determinism: the perturbations a recompute writes depend only on the
/// seed, the adjustments, and the stones' rows and positions — two grids
/// whose stones sit in the same rows receive identical perturbation fields.
pub proof fn lemma_recompute_deterministic(
    a: Seq<Stone>,
    b: Seq<Stone>,
    seed: u64,
    d: int,
    r: int,
)
    requires
        a.len() == b.len(),
        forall|i: int| 0 <= i < a.len() ==> (#[trigger] a[i]).y == b[i].y,
    ensures
        perturbations(a, seed, d, r) =~= perturbations(b, seed, d, r),
{
    assert forall|i: int| 0 <= i < a.len() implies perturbations(a, seed, d, r)[i]
        == perturbations(b, seed, d, r)[i] by {
        assert(a[i].y == b[i].y);
    }
}

/// A grid whose every stone satisfies `stone_perturbed` (what
/// `GridState::recompute` ensures) carries exactly the triples of
/// `perturbations`: together with `lemma_recompute_deterministic`, two
/// recomputes from the same grid, seed and adjustments write byte-identical
/// perturbation fields.
pub proof fn lemma_perturbed_grid_matches(g0: Seq<Stone>, g: Seq<Stone>, seed: u64, d: int, r: int)
    requires
        g.len() == g0.len(),
        forall|i: int| 0 <= i < g0.len() ==> #[trigger] stone_perturbed(g0, g, seed, d, r, i),
    ensures
        forall|i: int|
            0 <= i < g.len() ==> ((#[trigger] g[i]).x_offset as int, g[i].y_offset as int,
            g[i].rotation as int) == perturbations(g0, seed, d, r)[i],
{
    assert forall|i: int| 0 <= i < g.len() implies ((#[trigger] g[i]).x_offset as int,
    g[i].y_offset as int, g[i].rotation as int) == perturbations(g0, seed, d, r)[i] by {
        assert(stone_perturbed(g0, g, seed, d, r, i));
    }
}

/// Ramp monotonicity: the magnitude bound on the stored offsets, and on the
/// stored rotation, is non-decreasing in the row index.
pub proof fn lemma_ramp_monotone(adj: int, y1: int, y2: int)
    requires
        0 <= y1 <= y2,
        0 <= adj,
    ensures
        offset_bound(y1, adj) <= offset_bound(y2, adj),
        rotation_bound(y1, adj) <= rotation_bound(y2, adj),
{
    assert(y1 * adj * 500_000 <= y2 * adj * 500_000 && y1 * adj * 785_398 <= y2 * adj
        * 785_398) by (nonlinear_arith)
        requires
            0 <= y1 <= y2,
            0 <= adj,
    ;
}

/// Top-row invariance: a stone of row zero always receives zero offsets and
/// zero rotation, whatever the seed and the adjustments.
pub proof fn lemma_top_row_unperturbed(g: Seq<Stone>, seed: u64, d: int, r: int, i: int)
    requires
        0 <= i < g.len(),
        g[i].y == 0,
    ensures
        perturbations(g, seed, d, r)[i] == (0int, 0int, 0int),
{
    assert(0 * d * draw_at(seed, 3 * i) == 0 && 0 * d * draw_at(seed, 3 * i + 1) == 0 && 0 * r
        * draw_at(seed, 3 * i + 2) == 0) by (nonlinear_arith);
}

/// Grid cardinality: a laid-out grid holds each cell of the
/// `cols` x `rows` cross product exactly once — the cell `(x, y)` stands at
/// index `y * cols + x` and nowhere else.
pub proof fn lemma_grid_cells_cover(g: Seq<Stone>, rows: int, cols: int, x: int, y: int)
    requires
        grid_laid_out(g, rows, cols),
        0 < rows,
        0 < cols,
        0 <= x < cols,
        0 <= y < rows,
    ensures
        0 <= y * cols + x < g.len(),
        g[y * cols + x].x == x,
        g[y * cols + x].y == y,
        forall|i: int| 0 <= i < g.len() && (#[trigger] g[i]).x == x && g[i].y == y ==> i == y
            * cols + x,
{
    vstd::arithmetic::div_mod::lemma_fundamental_div_mod_converse(y * cols + x, cols, y, x);
    assert(0 <= y * cols + x < rows * cols) by (nonlinear_arith)
        requires
            0 < rows,
            0 < cols,
            0 <= x < cols,
            0 <= y < rows,
    ;
    assert forall|i: int| 0 <= i < g.len() && (#[trigger] g[i]).x == x && g[i].y == y implies i
        == y * cols + x by {
        vstd::arithmetic::div_mod::lemma_fundamental_div_mod(i, cols);
        assert(i == cols * (i / cols) + i % cols);
        assert(cols * y == y * cols) by (nonlinear_arith);
    }
}

} // verus!
