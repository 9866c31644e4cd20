//! Renders a decoded raster image as a grid of colored glyphs for a
//! terminal: each pixel of a resampled grid is mapped through a contrast
//! curve onto a glyph of a selectable palette and wrapped in color styling.

use vstd::prelude::*;

pub mod cell;
pub mod curve;
pub mod dims;
pub mod frame;
pub mod palette;
pub mod raster;

verus! {

/// The read-only configuration of one rendering pass. The palette mode
/// is resolved to a [`palette::Palette`](crate::palette) before
/// rendering, and the contrast exponent to a
/// [`curve::ContrastCurve`](crate::curve); both are passed alongside
/// this struct.
pub struct RenderOptions {
    /// Invert each color channel before any other decision.
    pub invert: bool,
    /// The requested width of the output grid, in glyphs.
    pub width: u32,
    /// Emit a dimmed per-cell background color.
    pub background: bool,
}

} // verus!
