//! The resampling policy: deriving the output grid's dimensions.
//!
//! The grid keeps the requested width. Its height follows from the
//! source aspect ratio, halved by a fixed font correction because
//! terminal character cells are roughly twice as tall as wide.

use vstd::prelude::*;

verus! {

/// The derived grid height: `requested_w * (src_h / src_w) / 2`,
/// rounded to the nearest integer and saturated at `u32::MAX`.
pub open spec fn spec_target_height(src_w: int, src_h: int, requested_w: int) -> int {
    let rounded = (requested_w * src_h + src_w) / (2 * src_w);
    if rounded > u32::MAX {
        u32::MAX as int
    } else {
        rounded
    }
}

/// Computes the output grid dimensions from the source dimensions and
/// the requested width. The width passes through unchanged; the height
/// is the rounded aspect-corrected height. A requested width of zero
/// yields a height of zero: the grid is empty, not an error.
pub fn target_dims(src_w: u32, src_h: u32, requested_w: u32) -> (r: (u32, u32))
    requires
        src_w >= 1,
    ensures
        r.0 == requested_w,
        r.1 == spec_target_height(src_w as int, src_h as int, requested_w as int),
{
    proof {
        assert(requested_w as int * src_h as int <= 0xffff_ffff * 0xffff_ffff)
            by (nonlinear_arith)
            requires
                requested_w <= 0xffff_ffffu32,
                src_h <= 0xffff_ffffu32,
        ;
    }
    let numerator: u64 = requested_w as u64 * src_h as u64 + src_w as u64;
    let denominator: u64 = 2 * src_w as u64;
    let quotient: u64 = numerator / denominator;
    let height: u32 = if quotient > 0xffff_ffff {
        0xffff_ffffu32
    } else {
        quotient as u32
    };
    (requested_w, height)
}

} // verus!
