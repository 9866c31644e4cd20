//! The per-cell decision function: from one RGBA pixel and the run's
//! configuration to a glyph, a foreground color, and an optional
//! background color.
//!
//! Decisions run in a fixed order: optional channel inversion, the
//! blank-cell rule, perceptual luminance, the contrast curve, palette
//! index arithmetic, and saturation boosting for the display color.

use vstd::prelude::*;

use crate::RenderOptions;
use crate::curve::ContrastCurve;
use crate::palette::Palette;

verus! {

/// A pixel whose alpha is below this limit renders blank.
pub const BLANK_ALPHA_LIMIT: u8 = 50;

/// A pixel all of whose color channels are below this limit renders blank.
pub const BLANK_DARK_LIMIT: u8 = 30;

/// The saturation boost of the foreground color, in tenths: a boost by 1.5.
pub const FG_BOOST_TENTHS: u32 = 15;

/// What one cell of the output grid renders as. A blank cell carries a
/// space glyph and no color at all; every other cell carries a
/// foreground color and, when backgrounds were requested, a background
/// color.
#[derive(Clone, Copy, PartialEq, Eq, Debug)]
pub struct CellOut {
    /// The glyph standing for the cell.
    pub glyph: char,
    /// The foreground color, absent exactly for blank cells.
    pub fg: Option<(u8, u8, u8)>,
    /// The dimmed background color, present only when requested and
    /// the cell is not blank.
    pub bg: Option<(u8, u8, u8)>,
}

/// One inverted color channel.
pub open spec fn spec_invert_channel(c: u8) -> u8 {
    (255 - c) as u8
}

/// The blank-cell rule on post-inversion channels: near-transparent
/// and near-black pixels alike render as nothing.
pub open spec fn spec_is_blank(r: u8, g: u8, b: u8, a: u8) -> bool {
    a < BLANK_ALPHA_LIMIT || (r < BLANK_DARK_LIMIT && g < BLANK_DARK_LIMIT && b < BLANK_DARK_LIMIT)
}

/// Perceptual luminance, the standard weighting
/// `0.299 R + 0.587 G + 0.114 B` rounded to the nearest integer,
/// written over thousandths.
pub open spec fn spec_brightness(r: u8, g: u8, b: u8) -> u8 {
    ((299 * r + 587 * g + 114 * b + 500) / 1000) as u8
}

/// The boosted value of one channel: `val * factor_tenths / 10` rounded
/// to the nearest integer and clamped to 255.
pub open spec fn spec_boost(val: u8, factor_tenths: int) -> u8 {
    let scaled = (val * factor_tenths + 5) / 10;
    if scaled > 255 {
        255u8
    } else {
        scaled as u8
    }
}

/// The palette index of a contrast-adjusted brightness value: a linear
/// map of `[0, 255]` onto `[0, len - 1]`, flipped when the palette's
/// polarity asks for it.
pub open spec fn spec_palette_index(contrasted: u8, len: int, invert_polarity: bool) -> int {
    let idx = (contrasted * (len - 1)) / 255;
    if invert_polarity {
        len - 1 - idx
    } else {
        idx
    }
}

/// What one pixel renders as, as a function of the pixel, the curve's
/// entries, the palette's glyphs and polarity, and the two per-run
/// flags.
pub open spec fn spec_render_cell(
    px: (u8, u8, u8, u8),
    curve: Seq<u8>,
    glyphs: Seq<char>,
    invert_polarity: bool,
    invert: bool,
    background: bool,
) -> CellOut {
    let r = if invert {
        spec_invert_channel(px.0)
    } else {
        px.0
    };
    let g = if invert {
        spec_invert_channel(px.1)
    } else {
        px.1
    };
    let b = if invert {
        spec_invert_channel(px.2)
    } else {
        px.2
    };
    if spec_is_blank(r, g, b, px.3) {
        CellOut { glyph: ' ', fg: None, bg: None }
    } else {
        let contrasted = curve[spec_brightness(r, g, b) as int];
        let idx = spec_palette_index(contrasted, glyphs.len() as int, invert_polarity);
        CellOut {
            glyph: glyphs[idx],
            fg: Some(
                (
                    spec_boost(r, FG_BOOST_TENTHS as int),
                    spec_boost(g, FG_BOOST_TENTHS as int),
                    spec_boost(b, FG_BOOST_TENTHS as int),
                ),
            ),
            bg: if background {
                Some(((r / 2) as u8, (g / 2) as u8, (b / 2) as u8))
            } else {
                None
            },
        }
    }
}

/// Saturation boost for one color channel. The factor is given in
/// tenths, so a factor of `15` boosts by 1.5. The result is rounded to
/// the nearest integer and clamped to 255, for every value and every
/// factor: the arithmetic saturates and never wraps.
pub fn boost_saturation(val: u8, factor_tenths: u32) -> (r: u8)
    ensures
        r == spec_boost(val, factor_tenths as int),
{
    proof {
        assert(val as int * factor_tenths as int <= 255 * 0xffff_ffff) by (nonlinear_arith)
            requires
                val <= 255,
                factor_tenths <= 0xffff_ffffu32,
        ;
    }
    let scaled: u64 = (val as u64 * factor_tenths as u64 + 5) / 10;
    if scaled > 255 {
        255
    } else {
        scaled as u8
    }
}

/// The palette index lies in `[0, len - 1]` for every contrast value,
/// every non-empty length, and either polarity: index arithmetic never
/// reads past the last glyph.
pub proof fn lemma_palette_index_in_range(contrasted: u8, len: int, invert_polarity: bool)
    requires
        len >= 1,
    ensures
        0 <= spec_palette_index(contrasted, len, invert_polarity) < len,
{
    assert(contrasted * (len - 1) <= 255 * (len - 1)) by (nonlinear_arith)
        requires
            contrasted <= 255,
            len >= 1,
    ;
    assert(0 <= (contrasted * (len - 1)) / 255 <= len - 1) by (nonlinear_arith)
        requires
            0 <= contrasted * (len - 1) <= 255 * (len - 1),
            len >= 1,
    ;
}

/// Computes the palette index of a contrast-adjusted brightness value.
/// The result always lies within the palette.
pub fn palette_index(contrasted: u8, len: usize, invert_polarity: bool) -> (idx: usize)
    requires
        len >= 1,
        255 * (len - 1) <= usize::MAX,
    ensures
        idx == spec_palette_index(contrasted, len as int, invert_polarity),
        idx < len,
{
    proof {
        lemma_palette_index_in_range(contrasted, len as int, invert_polarity);
        assert(contrasted as int * (len - 1) as int <= 255 * (len - 1) as int)
            by (nonlinear_arith)
            requires
                contrasted <= 255,
                len >= 1,
        ;
    }
    let mut idx: usize = (contrasted as usize * (len - 1)) / 255;
    if invert_polarity {
        idx = len - 1 - idx;
    }
    if idx > len - 1 {
        idx = len - 1;
    }
    idx
}

/// Renders one RGBA pixel to a cell, in the fixed decision order:
/// inversion, blank rule, luminance, contrast lookup, palette index,
/// boosted foreground and optional dimmed background. A cell is blank
/// exactly when, after inversion, the pixel is near-transparent or
/// near-black; a blank cell is a space with no color at all.
pub fn render_cell(
    px: (u8, u8, u8, u8),
    curve: &ContrastCurve,
    palette: &Palette,
    opts: &RenderOptions,
) -> (cell: CellOut)
    requires
        curve.wf(),
        palette.wf(),
    ensures
        cell == spec_render_cell(
            px,
            curve.entries(),
            palette.glyphs@,
            palette.invert_polarity,
            opts.invert,
            opts.background,
        ),
        cell.fg is None <==> {
            let r = if opts.invert { spec_invert_channel(px.0) } else { px.0 };
            let g = if opts.invert { spec_invert_channel(px.1) } else { px.1 };
            let b = if opts.invert { spec_invert_channel(px.2) } else { px.2 };
            spec_is_blank(r, g, b, px.3)
        },
        cell.fg is None ==> cell.glyph == ' ' && cell.bg is None,
{
    let (mut r, mut g, mut b, a) = px;
    if opts.invert {
        r = 255 - r;
        g = 255 - g;
        b = 255 - b;
    }
    if a < BLANK_ALPHA_LIMIT || (r < BLANK_DARK_LIMIT && g < BLANK_DARK_LIMIT
        && b < BLANK_DARK_LIMIT) {
        return CellOut { glyph: ' ', fg: None, bg: None };
    }
    let brightness: u8 = ((299 * r as u32 + 587 * g as u32 + 114 * b as u32 + 500) / 1000) as u8;
    let contrasted = curve.apply(brightness);
    let idx = palette_index(contrasted, palette.glyphs.len(), palette.invert_polarity);
    let glyph = palette.glyphs[idx];
    let boosted = (
        boost_saturation(r, FG_BOOST_TENTHS),
        boost_saturation(g, FG_BOOST_TENTHS),
        boost_saturation(b, FG_BOOST_TENTHS),
    );
    let bg = if opts.background {
        Some((r / 2, g / 2, b / 2))
    } else {
        None
    };
    CellOut { glyph, fg: Some(boosted), bg }
}

} // verus!
