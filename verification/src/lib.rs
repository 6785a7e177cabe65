//! A seeded "gravel garden": a fixed grid of square stones whose positional
//! jitter and rotation are drawn from a pseudo-random stream, growing in
//! magnitude toward the bottom rows.  All quantities are carried as
//! fixed-point integers in micro-units (`UNIT` stands for 1.0), so that every
//! computation is exact.

use vstd::prelude::*;

pub mod color;
pub mod rng;
pub mod model;
pub mod render;
pub mod laws;

verus! {

/// Number of grid rows.
pub const ROWS: u32 = 20;

/// Number of grid columns.
pub const COLS: u32 = 20;

/// Cell pitch: the side of one grid cell, in drawing units.
pub const SIZE: u32 = 30;

/// Blank border around the grid, in drawing units.
pub const MARGIN: u32 = 10;

/// Width of the drawing surface, in drawing units.
pub const WIDTH: u32 = COLS * SIZE + 2 * MARGIN;

/// Height of the drawing surface, in drawing units.
pub const HEIGHT: u32 = ROWS * SIZE + 2 * MARGIN;

/// One whole unit in fixed-point micro-units (`1_000_000` stands for 1.0).
pub const UNIT: i64 = 1_000_000;

/// Half a unit in micro-units: the draws that perturb the offsets are
/// uniform over `[-HALF_UNIT, HALF_UNIT)`.
pub const HALF_UNIT: i64 = 500_000;

/// A quarter turn of pi in micro-units (pi/4, rounded to the nearest
/// micro-unit): the draws that perturb the rotation are uniform over
/// `[-QUARTER_PI, QUARTER_PI)`.
pub const QUARTER_PI: i64 = 785_398;

/// Stroke width of a stone's outline relative to its unit side, in
/// micro-units (0.06).
pub const LINE_WIDTH: i64 = 60_000;

/// One adjustment step (0.1) in micro-units.
pub const ADJ_STEP: i64 = 100_000;

/// The starting value (1.0) of both adjustment factors, in micro-units.
pub const ADJ_DEFAULT: i64 = 1_000_000;

/// Cap on either adjustment factor, in micro-units, so that every
/// perturbation product fits in an `i64`.
pub const ADJ_MAX: i64 = 500_000_000_000;

/// The random seed is drawn uniformly from `[0, SEED_BOUND)`.
pub const SEED_BOUND: u32 = 1_000_000;

/// Number of entries in the background palette.
pub const PALETTE_LEN: u32 = 10;

/// Denominator of the stored perturbation offsets: a stone's `x_offset` of
/// `OFFSET_DENOM` would displace it by exactly one cell.  Equal to
/// `ROWS * UNIT * UNIT` (see `lemma_offset_denom`).
pub const OFFSET_DENOM: i64 = 20_000_000_000_000;

/// `OFFSET_DENOM` is the product of the row count and the two micro-unit
/// scales that enter a stored offset.
pub proof fn lemma_offset_denom()
    ensures
        OFFSET_DENOM == (ROWS as int) * (UNIT as int) * (UNIT as int),
{
}

} // verus!
