use glyphgrid::RenderOptions;
use glyphgrid::cell::{boost_saturation, palette_index, render_cell};
use glyphgrid::curve::ContrastCurve;
use glyphgrid::dims::target_dims;
use glyphgrid::frame::{PixelGrid, cell_text, emit_frame, render_row_cells};
use glyphgrid::palette::{Palette, PaletteMode, parse_mode, select_palette};

fn identity_curve() -> ContrastCurve {
    ContrastCurve::identity()
}

fn plain_opts() -> RenderOptions {
    RenderOptions {
        invert: false,
        width: 100,
        background: false,
    }
}

#[test]
fn test_boost_saturation_no_overflow() {
    assert_eq!(boost_saturation(100, 10), 100);
    assert_eq!(boost_saturation(100, 20), 200);
    assert_eq!(boost_saturation(200, 20), 255);
}

#[test]
fn test_calculate_contrast_identity() {
    assert_eq!(identity_curve().apply(128), 128);
}

#[test]
fn test_choose_ascii_format_ascii() {
    let (mode, recognized) = parse_mode("ascii");
    assert!(recognized);
    let palette = select_palette(mode);
    assert!(!palette.glyphs.is_empty());
    assert!(!palette.invert_polarity);
}

#[test]
fn test_choose_ascii_format_blocks() {
    let (mode, recognized) = parse_mode("blocks");
    assert!(recognized);
    let palette = select_palette(mode);
    assert!(!palette.glyphs.is_empty());
    assert!(palette.invert_polarity);
}

#[test]
fn curve_identity_maps_every_value_to_itself() {
    let curve = identity_curve();
    for v in 0..=255u8 {
        assert_eq!(curve.apply(v), v);
    }
}

#[test]
fn curve_from_table_enforces_the_invariant() {
    assert!(ContrastCurve::from_table(vec![0u8; 256]).is_some());
    assert!(ContrastCurve::from_table(vec![0u8; 255]).is_none());
    assert!(ContrastCurve::from_table(vec![1u8; 256]).is_none());
}

#[test]
fn boost_clamps_at_a_factor_of_one_and_a_half() {
    assert_eq!(boost_saturation(100, 15), 150);
    assert_eq!(boost_saturation(200, 15), 255);
    assert_eq!(boost_saturation(0, 15), 0);
}

#[test]
fn boost_saturates_for_any_factor() {
    assert_eq!(boost_saturation(1, u32::MAX), 255);
    assert_eq!(boost_saturation(255, u32::MAX), 255);
    assert_eq!(boost_saturation(255, 0), 0);
    assert_eq!(boost_saturation(7, 10), 7);
}

#[test]
fn palettes_are_non_empty_with_the_documented_shape() {
    for mode in [
        PaletteMode::Blocks,
        PaletteMode::Bubbles,
        PaletteMode::Geometric,
    ] {
        let palette = select_palette(mode);
        assert_eq!(palette.glyphs.len(), 5);
        assert!(palette.invert_polarity);
        assert_eq!(*palette.glyphs.last().unwrap(), ' ');
    }
    let ascii = select_palette(PaletteMode::Ascii);
    assert_eq!(ascii.glyphs.len(), 70);
    assert!(!ascii.invert_polarity);
    assert_eq!(*ascii.glyphs.last().unwrap(), ' ');
}

#[test]
fn unrecognized_mode_falls_back_to_ascii() {
    let (mode, recognized) = parse_mode("marquee");
    assert!(!recognized);
    assert_eq!(mode, PaletteMode::Ascii);
    let (mode, recognized) = parse_mode("bubbles");
    assert!(recognized);
    assert_eq!(mode, PaletteMode::Bubbles);
    let (mode, recognized) = parse_mode("geometric");
    assert!(recognized);
    assert_eq!(mode, PaletteMode::Geometric);
}

#[test]
fn palette_index_stays_in_range() {
    for contrasted in [0u8, 1, 127, 128, 254, 255] {
        for len in [1usize, 2, 5, 70] {
            for invert in [false, true] {
                let idx = palette_index(contrasted, len, invert);
                assert!(idx < len);
            }
        }
    }
    assert_eq!(palette_index(255, 70, false), 69);
    assert_eq!(palette_index(0, 5, true), 4);
    assert_eq!(palette_index(255, 1, true), 0);
}

#[test]
fn near_transparent_pixels_render_blank() {
    let curve = identity_curve();
    let palette = select_palette(PaletteMode::Ascii);
    let opts = plain_opts();
    let cell = render_cell((200, 30, 90, 10), &curve, &palette, &opts);
    assert_eq!(cell.glyph, ' ');
    assert_eq!(cell.fg, None);
    assert_eq!(cell.bg, None);
    assert_eq!(cell_text(&cell), " ");
}

#[test]
fn near_black_pixels_render_blank() {
    let curve = identity_curve();
    let palette = select_palette(PaletteMode::Ascii);
    let opts = plain_opts();
    let cell = render_cell((10, 10, 10, 255), &curve, &palette, &opts);
    assert_eq!(cell.glyph, ' ');
    assert_eq!(cell.fg, None);
    assert_eq!(cell.bg, None);
}

#[test]
fn one_bright_channel_defeats_the_blank_rule() {
    let curve = identity_curve();
    let palette = select_palette(PaletteMode::Ascii);
    let opts = plain_opts();
    let cell = render_cell((10, 10, 40, 255), &curve, &palette, &opts);
    assert_ne!(cell.fg, None);
}

#[test]
fn inversion_applies_before_the_blank_rule() {
    let curve = identity_curve();
    let palette = select_palette(PaletteMode::Ascii);
    let opts = RenderOptions {
        invert: true,
        width: 100,
        background: false,
    };
    // Near-white inverts to near-black, so the cell renders blank.
    let cell = render_cell((250, 240, 230, 255), &curve, &palette, &opts);
    assert_eq!(cell.fg, None);
}

#[test]
fn background_color_is_the_halved_channels() {
    let curve = identity_curve();
    let palette = select_palette(PaletteMode::Ascii);
    let opts = RenderOptions {
        invert: false,
        width: 100,
        background: true,
    };
    let cell = render_cell((101, 50, 255, 255), &curve, &palette, &opts);
    assert_eq!(cell.bg, Some((50, 25, 127)));
}

#[test]
fn dimensions_follow_the_aspect_and_font_correction() {
    assert_eq!(target_dims(200, 100, 100), (100, 25));
    assert_eq!(target_dims(200, 100, 0), (0, 0));
    assert_eq!(target_dims(100, 100, 80), (80, 40));
}

#[test]
fn a_zero_width_request_emits_no_lines() {
    let curve = identity_curve();
    let palette = select_palette(PaletteMode::Ascii);
    let opts = RenderOptions {
        invert: false,
        width: 0,
        background: false,
    };
    let grid = PixelGrid::from_rows(0, Vec::new()).unwrap();
    let lines = emit_frame(&grid, &curve, &palette, &opts);
    assert!(lines.is_empty());
}

#[test]
fn grid_rows_must_all_have_the_stated_width() {
    let rows = vec![vec![(0, 0, 0, 255); 3], vec![(0, 0, 0, 255); 2]];
    assert!(PixelGrid::from_rows(3, rows).is_none());
    let rows = vec![vec![(0, 0, 0, 255); 3], vec![(9, 9, 9, 255); 3]];
    assert!(PixelGrid::from_rows(3, rows).is_some());
}

#[test]
fn end_to_end_cell_decisions_on_a_two_by_two_image() {
    let curve = identity_curve();
    let palette = select_palette(PaletteMode::Ascii);
    let opts = RenderOptions {
        invert: false,
        width: 2,
        background: false,
    };
    let top = vec![(255, 255, 255, 255), (0, 0, 0, 255)];
    let bottom = vec![(0, 0, 0, 10), (128, 128, 128, 255)];

    let top_cells = render_row_cells(&top, &curve, &palette, &opts);
    // Full white: brightness 255 lands on the sparse end of the ascii
    // ramp, a space, but the cell still carries its boosted color.
    assert_eq!(top_cells[0].glyph, ' ');
    assert_eq!(top_cells[0].fg, Some((255, 255, 255)));
    // Opaque black fails the darkness test and renders blank.
    assert_eq!(top_cells[1].glyph, ' ');
    assert_eq!(top_cells[1].fg, None);

    let bottom_cells = render_row_cells(&bottom, &curve, &palette, &opts);
    // Near-transparent renders blank whatever its color.
    assert_eq!(bottom_cells[0].fg, None);
    // Mid gray: brightness 128, index 128 * 69 / 255 = 34.
    assert_eq!(bottom_cells[1].glyph, palette.glyphs[34]);
    assert_eq!(bottom_cells[1].glyph, 'n');
    assert_eq!(bottom_cells[1].fg, Some((192, 192, 192)));
}

#[test]
fn identical_inputs_render_byte_identical_frames() {
    let curve = identity_curve();
    let palette = select_palette(PaletteMode::Blocks);
    let opts = RenderOptions {
        invert: false,
        width: 2,
        background: true,
    };
    let rows = vec![
        vec![(255, 255, 255, 255), (0, 0, 0, 255)],
        vec![(0, 0, 0, 10), (128, 128, 128, 255)],
    ];
    let grid = PixelGrid::from_rows(2, rows).unwrap();
    let first = emit_frame(&grid, &curve, &palette, &opts);
    let second = emit_frame(&grid, &curve, &palette, &opts);
    assert_eq!(first.len(), 2);
    assert_eq!(first, second);
}

#[test]
fn a_colored_cell_text_contains_its_glyph() {
    let curve = identity_curve();
    let palette = select_palette(PaletteMode::Blocks);
    let opts = plain_opts();
    let cell = render_cell((240, 240, 240, 255), &curve, &palette, &opts);
    assert!(cell.fg.is_some());
    assert_ne!(cell.glyph, ' ');
    let text = cell_text(&cell);
    assert!(text.contains(cell.glyph));

    let opts_bg = RenderOptions {
        invert: false,
        width: 100,
        background: true,
    };
    let cell_bg = render_cell((240, 240, 240, 255), &curve, &palette, &opts_bg);
    assert!(cell_bg.bg.is_some());
    assert!(cell_text(&cell_bg).contains(cell_bg.glyph));
}

#[test]
fn a_line_contains_the_glyphs_of_its_cells_in_order() {
    let curve = identity_curve();
    let palette = select_palette(PaletteMode::Blocks);
    let opts = plain_opts();
    // Bright, mid, and near-black pixels: dense glyph, mid glyph, blank.
    let row = vec![(240, 240, 240, 255), (128, 128, 128, 255), (5, 5, 5, 255)];
    let cells = render_row_cells(&row, &curve, &palette, &opts);
    let grid = PixelGrid::from_rows(3, vec![row]).unwrap();
    let lines = emit_frame(&grid, &curve, &palette, &opts);
    let line = &lines[0];
    let mut rest = line.as_str();
    for cell in &cells {
        let at = rest.find(cell.glyph).unwrap();
        rest = &rest[at + cell.glyph.len_utf8()..];
    }
}

#[test]
fn every_line_has_at_least_one_character_per_cell() {
    let curve = identity_curve();
    let palette = select_palette(PaletteMode::Geometric);
    let opts = plain_opts();
    let rows = vec![vec![(200, 10, 10, 255); 4]; 3];
    let grid = PixelGrid::from_rows(4, rows).unwrap();
    let lines = emit_frame(&grid, &curve, &palette, &opts);
    assert_eq!(lines.len(), 3);
    for line in &lines {
        assert!(line.chars().count() >= 4);
    }
}
