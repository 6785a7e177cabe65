//! The grid of stones and its state: creation, the seeded perturbation
//! recompute, and the input-driven transitions.

use vstd::prelude::*;
use crate::color::{Color, palette, in_palette};
use crate::rng::{DrawStream, draw_at, fresh_rng, pick_below};

verus! {

/// One grid square.  `x` and `y` are its column and row, fixed at creation;
/// the three perturbation fields are overwritten by every recompute.
/// Offsets are fractions of one cell with denominator `OFFSET_DENOM`;
/// rotation is an angle in radians with denominator `UNIT * UNIT`.
#[derive(Clone, Copy, PartialEq, Eq, Structural, Debug)]
pub struct Stone {
    pub x: u32,
    pub y: u32,
    pub x_offset: i64,
    pub y_offset: i64,
    pub rotation: i64,
}

impl Stone {
    /// A fresh stone at column `x`, row `y`, with no perturbation.
    pub fn new(x: u32, y: u32) -> (s: Stone)
        ensures
            s.x == x,
            s.y == y,
            s.x_offset == 0,
            s.y_offset == 0,
            s.rotation == 0,
    {
        Stone { x, y, x_offset: 0i64, y_offset: 0i64, rotation: 0i64 }
    }
}

/// The stones stand in row-major order: the stone at index `i` is in
/// column `i % cols` of row `i / cols`, and there is one for every cell.
pub open spec fn grid_laid_out(g: Seq<Stone>, rows: int, cols: int) -> bool {
    &&& g.len() == rows * cols
    &&& forall|i: int|
        0 <= i < g.len() ==> (#[trigger] g[i]).x == i % cols && g[i].y == i / cols
}

/// Every stone of a laid-out grid has its coordinates inside the grid.
pub proof fn lemma_grid_coords_in_range(g: Seq<Stone>, rows: int, cols: int, i: int)
    requires
        grid_laid_out(g, rows, cols),
        0 < rows,
        0 < cols,
        0 <= i < g.len(),
    ensures
        0 <= g[i].x < cols,
        0 <= g[i].y < rows,
{
    vstd::arithmetic::div_mod::lemma_mod_bound(i, cols);
    vstd::arithmetic::div_mod::lemma_div_nonincreasing(i, cols);
    vstd::arithmetic::div_mod::lemma_div_pos_is_pos(i, cols);
    assert(i / cols < rows) by {
        if i / cols >= rows {
            vstd::arithmetic::div_mod::lemma_fundamental_div_mod(i, cols);
            assert(i == cols * (i / cols) + i % cols);
            assert(cols * (i / cols) >= cols * rows) by (nonlinear_arith)
                requires
                    0 < cols,
                    i / cols >= rows,
            ;
        }
    }
}

/// The freshly created grid: `rows * cols` stones in row-major order (row
/// outer, column inner), each carrying its cell coordinates and zero
/// perturbation.
pub fn initialize(rows: u32, cols: u32) -> (g: Vec<Stone>)
    requires
        rows >= 1,
        cols >= 1,
    ensures
        grid_laid_out(g@, rows as int, cols as int),
        forall|i: int|
            0 <= i < g@.len() ==> (#[trigger] g@[i]).x_offset == 0 && g@[i].y_offset == 0
                && g@[i].rotation == 0,
{
    let mut g: Vec<Stone> = Vec::new();
    proof {
        assert(0int * (cols as int) == 0) by (nonlinear_arith);
    }
    for y in 0..rows
        invariant
            cols >= 1,
            g@.len() == y * cols,
            forall|i: int|
                0 <= i < g@.len() ==> (#[trigger] g@[i]).x == i % (cols as int)
                    && g@[i].y == i / (cols as int),
            forall|i: int|
                0 <= i < g@.len() ==> (#[trigger] g@[i]).x_offset == 0 && g@[i].y_offset == 0
                    && g@[i].rotation == 0,
    {
        for x in 0..cols
            invariant
                cols >= 1,
                x <= cols,
                g@.len() == y * cols + x,
                forall|i: int|
                    0 <= i < g@.len() ==> (#[trigger] g@[i]).x == i % (cols as int)
                        && g@[i].y == i / (cols as int),
                forall|i: int|
                    0 <= i < g@.len() ==> (#[trigger] g@[i]).x_offset == 0 && g@[i].y_offset == 0
                        && g@[i].rotation == 0,
        {
            proof {
                vstd::arithmetic::div_mod::lemma_fundamental_div_mod_converse(
                    (y as int) * (cols as int) + (x as int),
                    cols as int,
                    y as int,
                    x as int,
                );
            }
            g.push(Stone::new(x, y));
        }
        proof {
            assert((y as int + 1) * (cols as int) == (y as int) * (cols as int) + (cols as int))
                by (nonlinear_arith);
        }
    }
    g
}

/// The stored `x_offset` after a recompute: the row's linear ramp (`y` out
/// of `ROWS` rows), the displacement adjustment, and the stream's draw for
/// this stone, all multiplied out exactly (denominator `OFFSET_DENOM`).
pub open spec fn x_offset_of(seed: u64, disp_adj: int, y: int, i: int) -> int {
    y * disp_adj * draw_at(seed, 3 * i)
}

/// The stored `y_offset` after a recompute.
pub open spec fn y_offset_of(seed: u64, disp_adj: int, y: int, i: int) -> int {
    y * disp_adj * draw_at(seed, 3 * i + 1)
}

/// The stored `rotation` after a recompute.
pub open spec fn rotation_of(seed: u64, rot_adj: int, y: int, i: int) -> int {
    y * rot_adj * draw_at(seed, 3 * i + 2)
}

/// Largest magnitude either stored offset can take for a stone of row `y`
/// under displacement adjustment `adj`.
pub open spec fn offset_bound(y: int, adj: int) -> int {
    y * adj * crate::HALF_UNIT
}

/// Largest magnitude the stored rotation can take for a stone of row `y`
/// under rotation adjustment `adj`.
pub open spec fn rotation_bound(y: int, adj: int) -> int {
    y * adj * crate::QUARTER_PI
}

/// How the stone at index `i` of `g0` looks in `g` after a recompute with
/// the given seed and adjustments: identity kept, every perturbation field
/// overwritten with its exact value, and each field within its row's bound.
pub open spec fn stone_perturbed(
    g0: Seq<Stone>,
    g: Seq<Stone>,
    seed: u64,
    d: int,
    r: int,
    i: int,
) -> bool {
    let s0 = g0[i];
    let s = g[i];
    &&& s.x == s0.x
    &&& s.y == s0.y
    &&& s.x_offset == x_offset_of(seed, d, s0.y as int, i)
    &&& s.y_offset == y_offset_of(seed, d, s0.y as int, i)
    &&& s.rotation == rotation_of(seed, r, s0.y as int, i)
    &&& -offset_bound(s0.y as int, d) <= s.x_offset <= offset_bound(s0.y as int, d)
    &&& -offset_bound(s0.y as int, d) <= s.y_offset <= offset_bound(s0.y as int, d)
    &&& -rotation_bound(s0.y as int, r) <= s.rotation <= rotation_bound(s0.y as int, r)
}

/// The whole sketch state: the grid, the seed and adjustment factors that
/// drive the perturbation, and the background color.
pub struct GridState {
    pub random_seed: u64,
    pub disp_adj: i64,
    pub rot_adj: i64,
    pub gravel: Vec<Stone>,
    pub background_color: Color,
}

/// An input a key event is mapped to.
#[derive(Clone, Copy, PartialEq, Eq, Structural, Debug)]
pub enum Input {
    Save,
    ChangeColor,
    Reseed,
    IncreaseDisplacement,
    DecreaseDisplacement,
    IncreaseRotation,
    DecreaseRotation,
}

/// What the caller owes after an input: recompute and redraw the frame, or
/// export the current frame to a file.
#[derive(Clone, Copy, PartialEq, Eq, Structural, Debug)]
pub enum Effect {
    Redraw,
    SaveFrame,
}

impl GridState {
    /// Well-formedness: the grid has its full row-major layout, the
    /// adjustment factors are non-negative and within the machine cap, the
    /// seed is in its domain, and the background is a palette color.
    pub open spec fn wf(self) -> bool {
        &&& grid_laid_out(self.gravel@, crate::ROWS as int, crate::COLS as int)
        &&& 0 <= self.disp_adj <= crate::ADJ_MAX
        &&& 0 <= self.rot_adj <= crate::ADJ_MAX
        &&& self.random_seed < crate::SEED_BOUND
        &&& in_palette(self.background_color)
    }

    /// The startup state: a full unperturbed grid, both adjustments at 1.0,
    /// a freshly rolled seed and a freshly picked background color.
    pub fn new() -> (g: GridState)
        ensures
            g.wf(),
            g.disp_adj == crate::ADJ_DEFAULT,
            g.rot_adj == crate::ADJ_DEFAULT,
            forall|i: int|
                0 <= i < g.gravel@.len() ==> (#[trigger] g.gravel@[i]).x_offset == 0
                    && g.gravel@[i].y_offset == 0 && g.gravel@[i].rotation == 0,
    {
        let mut r = fresh_rng();
        let random_seed = pick_below(&mut r, crate::SEED_BOUND) as u64;
        let background_color = palette(pick_below(&mut r, crate::PALETTE_LEN));
        let gravel = initialize(crate::ROWS, crate::COLS);
        GridState {
            random_seed,
            disp_adj: crate::ADJ_DEFAULT,
            rot_adj: crate::ADJ_DEFAULT,
            gravel,
            background_color,
        }
    }

    /// Re-pick the background color from the palette; nothing else changes.
    /// The draw is independent of the grid's seed.
    pub fn change_color(&mut self)
        ensures
            in_palette(final(self).background_color),
            final(self).random_seed == old(self).random_seed,
            final(self).disp_adj == old(self).disp_adj,
            final(self).rot_adj == old(self).rot_adj,
            final(self).gravel == old(self).gravel,
    {
        let mut r = fresh_rng();
        self.background_color = palette(pick_below(&mut r, crate::PALETTE_LEN));
    }

    /// Re-roll the random seed uniformly from its domain; nothing else
    /// changes.
    pub fn reseed(&mut self)
        ensures
            final(self).random_seed < crate::SEED_BOUND,
            final(self).disp_adj == old(self).disp_adj,
            final(self).rot_adj == old(self).rot_adj,
            final(self).gravel == old(self).gravel,
            final(self).background_color == old(self).background_color,
    {
        let mut r = fresh_rng();
        self.random_seed = pick_below(&mut r, crate::SEED_BOUND) as u64;
    }

    /// Raise the displacement adjustment by one step, up to the machine cap.
    pub fn increase_displacement(&mut self)
        requires
            old(self).disp_adj >= 0,
        ensures
            final(self).disp_adj == if old(self).disp_adj + crate::ADJ_STEP <= crate::ADJ_MAX {
                old(self).disp_adj + crate::ADJ_STEP
            } else {
                old(self).disp_adj as int
            },
            final(self).random_seed == old(self).random_seed,
            final(self).rot_adj == old(self).rot_adj,
            final(self).gravel == old(self).gravel,
            final(self).background_color == old(self).background_color,
    {
        if self.disp_adj <= crate::ADJ_MAX - crate::ADJ_STEP {
            self.disp_adj = self.disp_adj + crate::ADJ_STEP;
        }
    }

    /// Lower the displacement adjustment by one step, floored at zero: the
    /// result is never negative, and an input at zero is absorbed.
    pub fn decrease_displacement(&mut self)
        ensures
            final(self).disp_adj == if old(self).disp_adj >= crate::ADJ_STEP {
                old(self).disp_adj - crate::ADJ_STEP
            } else {
                0
            },
            final(self).disp_adj >= 0,
            final(self).random_seed == old(self).random_seed,
            final(self).rot_adj == old(self).rot_adj,
            final(self).gravel == old(self).gravel,
            final(self).background_color == old(self).background_color,
    {
        if self.disp_adj >= crate::ADJ_STEP {
            self.disp_adj = self.disp_adj - crate::ADJ_STEP;
        } else {
            self.disp_adj = 0;
        }
    }

    /// Raise the rotation adjustment by one step, up to the machine cap.
    pub fn increase_rotation(&mut self)
        requires
            old(self).rot_adj >= 0,
        ensures
            final(self).rot_adj == if old(self).rot_adj + crate::ADJ_STEP <= crate::ADJ_MAX {
                old(self).rot_adj + crate::ADJ_STEP
            } else {
                old(self).rot_adj as int
            },
            final(self).random_seed == old(self).random_seed,
            final(self).disp_adj == old(self).disp_adj,
            final(self).gravel == old(self).gravel,
            final(self).background_color == old(self).background_color,
    {
        if self.rot_adj <= crate::ADJ_MAX - crate::ADJ_STEP {
            self.rot_adj = self.rot_adj + crate::ADJ_STEP;
        }
    }

    /// Lower the rotation adjustment by one step, floored at zero.
    pub fn decrease_rotation(&mut self)
        ensures
            final(self).rot_adj == if old(self).rot_adj >= crate::ADJ_STEP {
                old(self).rot_adj - crate::ADJ_STEP
            } else {
                0
            },
            final(self).rot_adj >= 0,
            final(self).random_seed == old(self).random_seed,
            final(self).disp_adj == old(self).disp_adj,
            final(self).gravel == old(self).gravel,
            final(self).background_color == old(self).background_color,
    {
        if self.rot_adj >= crate::ADJ_STEP {
            self.rot_adj = self.rot_adj - crate::ADJ_STEP;
        } else {
            self.rot_adj = 0;
        }
    }

    /// The perturbation engine: overwrite every stone's perturbation fields
    /// from a stream freshly seeded with `random_seed`, walking the stones
    /// in creation order.  A stone of row `y` gets the ramp factor `y` out
    /// of `ROWS`, so the top row stays unperturbed and the jitter grows
    /// toward the bottom; the whole result is a function of the seed and the
    /// two adjustments alone.
    pub fn recompute(&mut self)
        requires
            old(self).wf(),
        ensures
            final(self).wf(),
            final(self).random_seed == old(self).random_seed,
            final(self).disp_adj == old(self).disp_adj,
            final(self).rot_adj == old(self).rot_adj,
            final(self).background_color == old(self).background_color,
            final(self).gravel@.len() == old(self).gravel@.len(),
            forall|i: int|
                0 <= i < old(self).gravel@.len() ==> #[trigger] stone_perturbed(
                    old(self).gravel@,
                    final(self).gravel@,
                    old(self).random_seed,
                    old(self).disp_adj as int,
                    old(self).rot_adj as int,
                    i,
                ),
    {
        let mut stream = DrawStream::from_seed(self.random_seed);
        let n = self.gravel.len();
        let mut i: usize = 0;
        while i < n
            invariant
                old(self).wf(),
                n == self.gravel.len(),
                i <= n,
                stream.seed() == old(self).random_seed,
                stream.drawn() == 3 * i,
                self.random_seed == old(self).random_seed,
                self.disp_adj == old(self).disp_adj,
                self.rot_adj == old(self).rot_adj,
                self.background_color == old(self).background_color,
                self.gravel@.len() == old(self).gravel@.len(),
                forall|j: int| i <= j < n ==> self.gravel@[j] == old(self).gravel@[j],
                forall|j: int|
                    0 <= j < i ==> #[trigger] stone_perturbed(
                        old(self).gravel@,
                        self.gravel@,
                        old(self).random_seed,
                        old(self).disp_adj as int,
                        old(self).rot_adj as int,
                        j,
                    ),
            decreases n - i,
        {
            proof {
                lemma_grid_coords_in_range(
                    old(self).gravel@,
                    crate::ROWS as int,
                    crate::COLS as int,
                    i as int,
                );
                vstd::arithmetic::div_mod::lemma_fundamental_div_mod_converse(
                    3 * (i as int),
                    3,
                    i as int,
                    0,
                );
                vstd::arithmetic::div_mod::lemma_fundamental_div_mod_converse(
                    3 * (i as int) + 1,
                    3,
                    i as int,
                    1,
                );
                vstd::arithmetic::div_mod::lemma_fundamental_div_mod_converse(
                    3 * (i as int) + 2,
                    3,
                    i as int,
                    2,
                );
            }
            let s0 = self.gravel[i];
            let u1 = stream.next_in(-crate::HALF_UNIT, crate::HALF_UNIT);
            let u2 = stream.next_in(-crate::HALF_UNIT, crate::HALF_UNIT);
            let u3 = stream.next_in(-crate::QUARTER_PI, crate::QUARTER_PI);
            let y: i64 = s0.y as i64;
            proof {
                assert(0 <= (y as int) * (self.disp_adj as int) <= 19 * 500_000_000_000int)
                    by (nonlinear_arith)
                    requires
                        0 <= y <= 19,
                        0 <= self.disp_adj <= 500_000_000_000i64,
                ;
                assert(0 <= (y as int) * (self.rot_adj as int) <= 19 * 500_000_000_000int)
                    by (nonlinear_arith)
                    requires
                        0 <= y <= 19,
                        0 <= self.rot_adj <= 500_000_000_000i64,
                ;
            }
            let disp_factor: i64 = y * self.disp_adj;
            let rot_factor: i64 = y * self.rot_adj;
            proof {
                assert(-(disp_factor as int) * 500_000 <= (disp_factor as int) * (u1 as int)
                    <= (disp_factor as int) * 500_000) by (nonlinear_arith)
                    requires
                        0 <= disp_factor,
                        -500_000 <= u1 <= 500_000,
                ;
                assert(-(disp_factor as int) * 500_000 <= (disp_factor as int) * (u2 as int)
                    <= (disp_factor as int) * 500_000) by (nonlinear_arith)
                    requires
                        0 <= disp_factor,
                        -500_000 <= u2 <= 500_000,
                ;
                assert(-(rot_factor as int) * 785_398 <= (rot_factor as int) * (u3 as int)
                    <= (rot_factor as int) * 785_398) by (nonlinear_arith)
                    requires
                        0 <= rot_factor,
                        -785_398 <= u3 <= 785_398,
                ;
                assert((disp_factor as int) * 500_000 <= 19 * 500_000_000_000int * 500_000)
                    by (nonlinear_arith)
                    requires
                        0 <= disp_factor <= 19 * 500_000_000_000int,
                ;
                assert((rot_factor as int) * 785_398 <= 19 * 500_000_000_000int * 785_398)
                    by (nonlinear_arith)
                    requires
                        0 <= rot_factor <= 19 * 500_000_000_000int,
                ;
            }
            let s = Stone {
                x: s0.x,
                y: s0.y,
                x_offset: disp_factor * u1,
                y_offset: disp_factor * u2,
                rotation: rot_factor * u3,
            };
            let ghost g_before = self.gravel@;
            self.gravel[i] = s;
            proof {
                assert((y as int) * (self.disp_adj as int) * (u1 as int)
                    == (disp_factor as int) * (u1 as int)) by (nonlinear_arith)
                    requires
                        disp_factor == (y as int) * (self.disp_adj as int),
                ;
                assert((y as int) * (self.disp_adj as int) * (u2 as int)
                    == (disp_factor as int) * (u2 as int)) by (nonlinear_arith)
                    requires
                        disp_factor == (y as int) * (self.disp_adj as int),
                ;
                assert((y as int) * (self.rot_adj as int) * (u3 as int)
                    == (rot_factor as int) * (u3 as int)) by (nonlinear_arith)
                    requires
                        rot_factor == (y as int) * (self.rot_adj as int),
                ;
                assert((y as int) * (self.disp_adj as int) * 500_000
                    == (disp_factor as int) * 500_000) by (nonlinear_arith)
                    requires
                        disp_factor == (y as int) * (self.disp_adj as int),
                ;
                assert((y as int) * (self.rot_adj as int) * 785_398
                    == (rot_factor as int) * 785_398) by (nonlinear_arith)
                    requires
                        rot_factor == (y as int) * (self.rot_adj as int),
                ;
                assert forall|j: int| 0 <= j < i as int + 1 implies #[trigger] stone_perturbed(
                    old(self).gravel@,
                    self.gravel@,
                    old(self).random_seed,
                    old(self).disp_adj as int,
                    old(self).rot_adj as int,
                    j,
                ) by {
                    if j < i as int {
                        assert(stone_perturbed(
                            old(self).gravel@,
                            g_before,
                            old(self).random_seed,
                            old(self).disp_adj as int,
                            old(self).rot_adj as int,
                            j,
                        ));
                        assert(self.gravel@[j] == g_before[j]);
                    } else {
                        assert(self.gravel@[j] == s);
                    }
                }
            }
            i = i + 1;
        }
        proof {
            assert forall|k: int| 0 <= k < self.gravel@.len() implies (#[trigger] self.gravel@[k]).x
                == k % (crate::COLS as int) && self.gravel@[k].y == k / (crate::COLS as int) by {
                assert(stone_perturbed(
                    old(self).gravel@,
                    self.gravel@,
                    old(self).random_seed,
                    old(self).disp_adj as int,
                    old(self).rot_adj as int,
                    k,
                ));
            }
        }
    }

    /// The input-driven state machine: every state-mutating input yields
    /// `Effect::Redraw` (the caller then recomputes and redraws); the save
    /// input mutates nothing and yields `Effect::SaveFrame`.
    pub fn handle_input(&mut self, input: Input) -> (e: Effect)
        requires
            old(self).wf(),
        ensures
            final(self).wf(),
            final(self).gravel == old(self).gravel,
            e == (if input == Input::Save {
                Effect::SaveFrame
            } else {
                Effect::Redraw
            }),
            match input {
                Input::Save => *final(self) == *old(self),
                Input::ChangeColor => {
                    &&& in_palette(final(self).background_color)
                    &&& final(self).random_seed == old(self).random_seed
                    &&& final(self).disp_adj == old(self).disp_adj
                    &&& final(self).rot_adj == old(self).rot_adj
                },
                Input::Reseed => {
                    &&& final(self).random_seed < crate::SEED_BOUND
                    &&& final(self).disp_adj == old(self).disp_adj
                    &&& final(self).rot_adj == old(self).rot_adj
                    &&& final(self).background_color == old(self).background_color
                },
                Input::IncreaseDisplacement => {
                    &&& final(self).disp_adj == if old(self).disp_adj + crate::ADJ_STEP
                        <= crate::ADJ_MAX {
                        old(self).disp_adj + crate::ADJ_STEP
                    } else {
                        old(self).disp_adj as int
                    }
                    &&& final(self).random_seed == old(self).random_seed
                    &&& final(self).rot_adj == old(self).rot_adj
                    &&& final(self).background_color == old(self).background_color
                },
                Input::DecreaseDisplacement => {
                    &&& final(self).disp_adj == if old(self).disp_adj >= crate::ADJ_STEP {
                        old(self).disp_adj - crate::ADJ_STEP
                    } else {
                        0
                    }
                    &&& final(self).random_seed == old(self).random_seed
                    &&& final(self).rot_adj == old(self).rot_adj
                    &&& final(self).background_color == old(self).background_color
                },
                Input::IncreaseRotation => {
                    &&& final(self).rot_adj == if old(self).rot_adj + crate::ADJ_STEP
                        <= crate::ADJ_MAX {
                        old(self).rot_adj + crate::ADJ_STEP
                    } else {
                        old(self).rot_adj as int
                    }
                    &&& final(self).random_seed == old(self).random_seed
                    &&& final(self).disp_adj == old(self).disp_adj
                    &&& final(self).background_color == old(self).background_color
                },
                Input::DecreaseRotation => {
                    &&& final(self).rot_adj == if old(self).rot_adj >= crate::ADJ_STEP {
                        old(self).rot_adj - crate::ADJ_STEP
                    } else {
                        0
                    }
                    &&& final(self).random_seed == old(self).random_seed
                    &&& final(self).disp_adj == old(self).disp_adj
                    &&& final(self).background_color == old(self).background_color
                },
            },
    {
        match input {
            Input::Save => Effect::SaveFrame,
            Input::ChangeColor => {
                self.change_color();
                Effect::Redraw
            },
            Input::Reseed => {
                self.reseed();
                Effect::Redraw
            },
            Input::IncreaseDisplacement => {
                self.increase_displacement();
                Effect::Redraw
            },
            Input::DecreaseDisplacement => {
                self.decrease_displacement();
                Effect::Redraw
            },
            Input::IncreaseRotation => {
                self.increase_rotation();
                Effect::Redraw
            },
            Input::DecreaseRotation => {
                self.decrease_rotation();
                Effect::Redraw
            },
        }
    }
}

} // verus!
