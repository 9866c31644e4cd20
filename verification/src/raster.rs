//! The rendering pipeline over a decoded image.
//!
//! A decoded image is a value of `image::DynamicImage`, opaque to the
//! library: its dimensions and pixels are given names here, and a
//! small set of trusted wrappers relates the image crate's calls to
//! those names. Everything around the calls — the dimension policy,
//! the conversion to the library's own pixel grid, and the per-cell
//! rendering — is verified.

use vstd::prelude::*;

use image::GenericImageView;

use crate::RenderOptions;
use crate::curve::ContrastCurve;
use crate::dims::spec_target_height;
use crate::dims::target_dims;
use crate::frame::PixelGrid;
use crate::frame::emit_frame;
use crate::frame::frame_renders_some_grid;
use crate::frame::line_renders_cells;
use crate::frame::spec_row_cells;
use crate::palette::Palette;

verus! {

#[verifier::external_type_specification]
#[verifier::external_body]
pub struct ExDynamicImage(image::DynamicImage);

/// The width and height of a decoded image, in pixels.
pub uninterp spec fn dims_of(img: image::DynamicImage) -> (u32, u32);

/// The RGBA pixels of a decoded image, keyed by column and row.
pub uninterp spec fn pixels_of(img: image::DynamicImage) -> Map<(u32, u32), (u8, u8, u8, u8)>;

/// Relies on `image::DynamicImage::width`: the width of the image.
#[verifier::external_body]
fn image_width(img: &image::DynamicImage) -> (w: u32)
    ensures
        w == dims_of(*img).0,
{
    img.width()
}

/// Relies on `image::DynamicImage::height`: the height of the image.
#[verifier::external_body]
fn image_height(img: &image::DynamicImage) -> (h: u32)
    ensures
        h == dims_of(*img).1,
{
    img.height()
}

/// Relies on `image::DynamicImage::resize_exact` with the Lanczos
/// filter: the result is a resampled image with exactly the requested
/// dimensions, aspect ratio not preserved.
#[verifier::external_body]
fn resize_lanczos(img: &image::DynamicImage, w: u32, h: u32) -> (out: image::DynamicImage)
    requires
        w >= 1,
        h >= 1,
    ensures
        dims_of(out) == (w, h),
{
    img.resize_exact(w, h, image::imageops::FilterType::Lanczos3)
}

/// Relies on `image::GenericImageView::get_pixel` for `DynamicImage`:
/// the RGBA value at the given in-bounds position. Out-of-bounds
/// positions are excluded, since the call panics there.
#[verifier::external_body]
fn pixel_at(img: &image::DynamicImage, x: u32, y: u32) -> (px: (u8, u8, u8, u8))
    requires
        x < dims_of(*img).0,
        y < dims_of(*img).1,
    ensures
        px == pixels_of(*img)[(x, y)],
{
    let p = img.get_pixel(x, y);
    (p.0[0], p.0[1], p.0[2], p.0[3])
}

/// Copies a decoded image into the library's own pixel grid, row-major.
pub fn grid_from_image(img: &image::DynamicImage) -> (grid: PixelGrid)
    ensures
        grid.wf(),
        grid.width == dims_of(*img).0,
        grid.rows@.len() == dims_of(*img).1,
        forall|y: int, x: int|
            0 <= y < dims_of(*img).1 && 0 <= x < dims_of(*img).0 ==> (
            #[trigger] grid.rows@[y]@[x]) == pixels_of(*img)[(x as u32, y as u32)],
{
    let w = image_width(img);
    let h = image_height(img);
    let mut rows: Vec<Vec<(u8, u8, u8, u8)>> = Vec::new();
    let mut y: u32 = 0;
    while y < h
        invariant
            y <= h,
            w == dims_of(*img).0,
            h == dims_of(*img).1,
            rows@.len() == y,
            forall|i: int| 0 <= i < y ==> (#[trigger] rows@[i])@.len() == w,
            forall|i: int, j: int|
                0 <= i < y && 0 <= j < w ==> (#[trigger] rows@[i]@[j]) == pixels_of(*img).index(
                    (j as u32, i as u32),
                ),
        decreases h - y,
    {
        let mut row: Vec<(u8, u8, u8, u8)> = Vec::new();
        let mut x: u32 = 0;
        while x < w
            invariant
                x <= w,
                y < h,
                w == dims_of(*img).0,
                h == dims_of(*img).1,
                row@.len() == x,
                forall|j: int|
                    0 <= j < x ==> (#[trigger] row@[j]) == pixels_of(*img)[(j as u32, y as u32)],
            decreases w - x,
        {
            row.push(pixel_at(img, x, y));
            x = x + 1;
        }
        rows.push(row);
        y = y + 1;
    }
    PixelGrid { width: w as usize, rows }
}

/// Renders a decoded image to styled text lines: derives the grid
/// dimensions from the source aspect ratio and the requested width,
/// resamples the image to that grid, and renders it cell by cell. The
/// number of lines is exactly the derived grid height; a requested
/// width of zero yields no lines at all. Each line renders, in order,
/// the cells of one row of a resampled pixel grid of the requested
/// width; the resampler chooses the grid's pixel values.
pub fn render_image(
    img: &image::DynamicImage,
    curve: &ContrastCurve,
    palette: &Palette,
    opts: &RenderOptions,
) -> (lines: Vec<String>)
    requires
        dims_of(*img).0 >= 1,
        curve.wf(),
        palette.wf(),
    ensures
        lines@.len() == spec_target_height(
            dims_of(*img).0 as int,
            dims_of(*img).1 as int,
            opts.width as int,
        ),
        forall|y: int| 0 <= y < lines@.len() ==> (#[trigger] lines@[y])@.len() >= opts.width,
        frame_renders_some_grid(
            lines@,
            opts.width as int,
            curve.entries(),
            palette.glyphs@,
            palette.invert_polarity,
            opts.invert,
            opts.background,
        ),
{
    let src_w = image_width(img);
    let src_h = image_height(img);
    let (target_w, target_h) = target_dims(src_w, src_h, opts.width);
    if target_w == 0 || target_h == 0 {
        proof {
            if target_w == 0 {
                assert((src_w as int) / (2 * src_w as int) == 0) by (nonlinear_arith)
                    requires
                        src_w >= 1,
                ;
                assert(spec_target_height(src_w as int, src_h as int, 0) == 0);
            }
            let no_rows = Seq::<Seq<(u8, u8, u8, u8)>>::empty();
            assert(no_rows.len() == Seq::<String>::empty().len());
        }
        return Vec::new();
    }
    let resized = resize_lanczos(img, target_w, target_h);
    let grid = grid_from_image(&resized);
    let lines = emit_frame(&grid, curve, palette, opts);
    proof {
        let rendered_rows = Seq::new(grid.rows@.len(), |y: int| grid.rows@[y]@);
        assert forall|y: int| 0 <= y < rendered_rows.len() implies (#[trigger] rendered_rows[y]).len()
            == opts.width as int by {
            assert(grid.rows@[y]@.len() == grid.width);
        }
        assert forall|y: int| 0 <= y < rendered_rows.len() implies line_renders_cells(
            (#[trigger] lines@[y])@,
            spec_row_cells(
                rendered_rows[y],
                curve.entries(),
                palette.glyphs@,
                palette.invert_polarity,
                opts.invert,
                opts.background,
            ),
        ) by {
            assert(rendered_rows[y] == grid.rows@[y]@);
        }
        assert(rendered_rows.len() == lines@.len());
    }
    lines
}

} // verus!
