//! The render-transform contract: where each stone's unit square sits on the
//! drawing surface.
//!
//! The drawing surface transform scales grid coordinates by the cell pitch,
//! flips the vertical axis (so growing row index moves downward), and centers
//! the grid; each stone is then shifted by its perturbation offsets and
//! rotated about its own center.  Positions are exact integers over the
//! denominator `2 * OFFSET_DENOM` per drawing unit.

use vstd::prelude::*;
use crate::model::Stone;

verus! {

/// The horizontal center of `s`'s square, in drawing units over the
/// denominator `2 * OFFSET_DENOM`: cell pitch times (column, plus the stored
/// offset, plus half a cell, minus half the grid width).
pub open spec fn screen_x_of(s: Stone) -> int {
    (crate::SIZE as int) * (2 * crate::OFFSET_DENOM * s.x + 2 * s.x_offset + crate::OFFSET_DENOM
        * (1 - crate::COLS as int))
}

/// The vertical center of `s`'s square, in drawing units over the
/// denominator `2 * OFFSET_DENOM`: as `screen_x_of` over rows, negated by
/// the vertical flip.
pub open spec fn screen_y_of(s: Stone) -> int {
    -(crate::SIZE as int) * (2 * crate::OFFSET_DENOM * s.y + 2 * s.y_offset + crate::OFFSET_DENOM
        * (1 - crate::ROWS as int))
}

/// The center of the square drawn for `s` (over the denominator
/// `2 * OFFSET_DENOM` per drawing unit) and its rotation (micro-micro
/// radians); the square's side is one cell pitch and its outline's relative
/// stroke width is `LINE_WIDTH`.
pub fn placement(s: &Stone) -> (p: (i128, i128, i64))
    ensures
        p.0 == screen_x_of(*s),
        p.1 == screen_y_of(*s),
        p.2 == s.rotation,
{
    let d: i128 = crate::OFFSET_DENOM as i128;
    let size: i128 = crate::SIZE as i128;
    let sx: i128 = s.x as i128;
    let sy: i128 = s.y as i128;
    let xo: i128 = s.x_offset as i128;
    let yo: i128 = s.y_offset as i128;
    proof {
        assert(0 <= 2 * (d as int) * (sx as int) <= 171_798_691_800_000_000_000_000int)
            by (nonlinear_arith)
            requires
                d == 20_000_000_000_000int,
                0 <= sx <= 4_294_967_295int,
        ;
        assert(0 <= 2 * (d as int) * (sy as int) <= 171_798_691_800_000_000_000_000int)
            by (nonlinear_arith)
            requires
                d == 20_000_000_000_000int,
                0 <= sy <= 4_294_967_295int,
        ;
        assert((d as int) * (1 - crate::COLS as int) == -380_000_000_000_000int)
            by (nonlinear_arith)
            requires
                d == 20_000_000_000_000int,
        ;
        assert((d as int) * (1 - crate::ROWS as int) == -380_000_000_000_000int)
            by (nonlinear_arith)
            requires
                d == 20_000_000_000_000int,
        ;
    }
    let tx: i128 = 2 * d * sx + 2 * xo + d * (1 - crate::COLS as i128);
    let ty: i128 = 2 * d * sy + 2 * yo + d * (1 - crate::ROWS as i128);
    proof {
        assert(-12_000_000_000_000_000_000_000_000int <= (size as int) * (tx as int)
            <= 12_000_000_000_000_000_000_000_000int) by (nonlinear_arith)
            requires
                size == 30,
                -400_000_000_000_000_000_000_000int <= tx
                    <= 400_000_000_000_000_000_000_000int,
        ;
        assert(-12_000_000_000_000_000_000_000_000int <= (size as int) * (ty as int)
            <= 12_000_000_000_000_000_000_000_000int) by (nonlinear_arith)
            requires
                size == 30,
                -400_000_000_000_000_000_000_000int <= ty
                    <= 400_000_000_000_000_000_000_000int,
        ;
    }
    let px: i128 = size * tx;
    let py: i128 = -(size * ty);
    proof {
        assert(px == screen_x_of(*s) && -(size as int) * (ty as int) == screen_y_of(*s))
            by (nonlinear_arith)
            requires
                d == crate::OFFSET_DENOM as int,
                size == crate::SIZE as int,
                sx == s.x as int,
                sy == s.y as int,
                xo == s.x_offset as int,
                yo == s.y_offset as int,
                tx == 2 * (d as int) * (sx as int) + 2 * (xo as int) + (d as int) * (1
                    - crate::COLS as int),
                ty == 2 * (d as int) * (sy as int) + 2 * (yo as int) + (d as int) * (1
                    - crate::ROWS as int),
                px == (size as int) * (tx as int),
                screen_x_of(*s) == (crate::SIZE as int) * (2 * crate::OFFSET_DENOM * s.x + 2
                    * s.x_offset + crate::OFFSET_DENOM * (1 - crate::COLS as int)),
                screen_y_of(*s) == -(crate::SIZE as int) * (2 * crate::OFFSET_DENOM * s.y + 2
                    * s.y_offset + crate::OFFSET_DENOM * (1 - crate::ROWS as int)),
        ;
    }
    (px, py, s.rotation)
}

} // verus!
