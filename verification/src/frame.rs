//! The frame emitter: renders a pixel grid row by row into styled
//! text lines.
//!
//! The decisions per cell are fully specified through
//! [`spec_render_cell`](crate::cell::spec_render_cell); the color
//! styling itself is delegated to the `colored` crate, whose output
//! depends on the terminal environment, so nothing beyond its presence
//! is stated of it. A blank cell contributes a bare space with no
//! styling at all.

use vstd::prelude::*;

use colored::Colorize;

use crate::RenderOptions;
use crate::cell::CellOut;
use crate::cell::render_cell;
use crate::cell::spec_render_cell;
use crate::curve::ContrastCurve;
use crate::palette::Palette;

verus! {

/// A rectangular grid of RGBA pixels, row-major: the library's own
/// view of a resampled image.
pub struct PixelGrid {
    /// The number of pixels in each row.
    pub width: usize,
    /// The rows, top to bottom; each holds `width` pixels left to right.
    pub rows: Vec<Vec<(u8, u8, u8, u8)>>,
}

impl PixelGrid {
    /// The grid invariant: every row holds exactly `width` pixels.
    pub open spec fn wf(self) -> bool {
        forall|y: int|
            0 <= y < self.rows@.len() ==> (#[trigger] self.rows@[y])@.len() == self.width
    }

    /// Wraps caller-supplied rows. Returns the grid exactly when every
    /// row holds `width` pixels, and `None` otherwise.
    pub fn from_rows(width: usize, rows: Vec<Vec<(u8, u8, u8, u8)>>) -> (r: Option<PixelGrid>)
        ensures
            r is Some <==> (forall|y: int|
                0 <= y < rows@.len() ==> (#[trigger] rows@[y])@.len() == width),
            r is Some ==> r->Some_0.wf() && r->Some_0.width == width && r->Some_0.rows == rows,
    {
        let mut y: usize = 0;
        while y < rows.len()
            invariant
                y <= rows@.len(),
                forall|i: int| 0 <= i < y ==> (#[trigger] rows@[i])@.len() == width,
            decreases rows@.len() - y,
        {
            if rows[y].len() != width {
                return None;
            }
            y = y + 1;
        }
        Some(PixelGrid { width, rows })
    }
}

/// The cells one row of pixels renders to, in order.
pub open spec fn spec_row_cells(
    row: Seq<(u8, u8, u8, u8)>,
    curve: Seq<u8>,
    glyphs: Seq<char>,
    invert_polarity: bool,
    invert: bool,
    background: bool,
) -> Seq<CellOut> {
    Seq::new(
        row.len(),
        |x: int| spec_render_cell(row[x], curve, glyphs, invert_polarity, invert, background),
    )
}

/// Whether a text line renders a cell sequence: the line is the
/// concatenation of one non-empty part per cell, in cell order, where
/// each part contains its cell's glyph and a blank cell's part is
/// exactly one bare space. The parts' exact form beyond that is the
/// terminal styling, which depends on the environment.
pub open spec fn line_renders_cells(line: Seq<char>, cells: Seq<CellOut>) -> bool {
    exists|parts: Seq<Seq<char>>|
        {
            &&& #[trigger] parts.len() == cells.len()
            &&& line == parts.flatten()
            &&& forall|i: int|
                0 <= i < cells.len() ==> (#[trigger] parts[i]).contains(cells[i].glyph)
            &&& forall|i: int| 0 <= i < cells.len() ==> (#[trigger] parts[i]).len() >= 1
            &&& forall|i: int|
                0 <= i < cells.len() ==> (cells[i].fg is None ==> (#[trigger] parts[i]) == " "@)
        }
}

/// Whether a frame renders some pixel grid of the given width: each
/// line renders the cells of the matching grid row. The grid itself is
/// left open; a resampler chooses it.
pub open spec fn frame_renders_some_grid(
    lines: Seq<String>,
    width: int,
    curve: Seq<u8>,
    glyphs: Seq<char>,
    invert_polarity: bool,
    invert: bool,
    background: bool,
) -> bool {
    exists|grid: Seq<Seq<(u8, u8, u8, u8)>>|
        {
            &&& #[trigger] grid.len() == lines.len()
            &&& forall|y: int| 0 <= y < grid.len() ==> (#[trigger] grid[y]).len() == width
            &&& forall|y: int|
                0 <= y < grid.len() ==> line_renders_cells(
                    (#[trigger] lines[y])@,
                    spec_row_cells(grid[y], curve, glyphs, invert_polarity, invert, background),
                )
        }
}

/// Renders one row of pixels to its cells, left to right.
pub fn render_row_cells(
    row: &Vec<(u8, u8, u8, u8)>,
    curve: &ContrastCurve,
    palette: &Palette,
    opts: &RenderOptions,
) -> (cells: Vec<CellOut>)
    requires
        curve.wf(),
        palette.wf(),
    ensures
        cells@.len() == row@.len(),
        forall|x: int|
            0 <= x < row@.len() ==> cells@[x] == spec_render_cell(
                row@[x],
                curve.entries(),
                palette.glyphs@,
                palette.invert_polarity,
                opts.invert,
                opts.background,
            ),
        cells@ == spec_row_cells(
            row@,
            curve.entries(),
            palette.glyphs@,
            palette.invert_polarity,
            opts.invert,
            opts.background,
        ),
{
    let mut cells: Vec<CellOut> = Vec::new();
    let mut x: usize = 0;
    while x < row.len()
        invariant
            x <= row@.len(),
            cells@.len() == x,
            curve.wf(),
            palette.wf(),
            forall|i: int|
                0 <= i < x ==> cells@[i] == spec_render_cell(
                    row@[i],
                    curve.entries(),
                    palette.glyphs@,
                    palette.invert_polarity,
                    opts.invert,
                    opts.background,
                ),
        decreases row@.len() - x,
    {
        cells.push(render_cell(row[x], curve, palette, opts));
        x = x + 1;
    }
    proof {
        assert(cells@ =~= spec_row_cells(
            row@,
            curve.entries(),
            palette.glyphs@,
            palette.invert_polarity,
            opts.invert,
            opts.background,
        ));
    }
    cells
}

/// Relies on colored's `Colorize::truecolor`: wraps one glyph in
/// 24-bit foreground color styling. Whether colorized or not, the
/// styled text always contains the glyph, so it is never empty; its
/// exact form depends on the terminal environment and is not stated.
#[verifier::external_body]
fn style_fg(glyph: char, r: u8, g: u8, b: u8) -> (s: String)
    ensures
        s@.len() >= 1,
        s@.contains(glyph),
{
    let text = glyph.to_string();
    text.truecolor(r, g, b).to_string()
}

/// Relies on colored's `Colorize::truecolor` and
/// `Colorize::on_truecolor`: wraps one glyph in 24-bit foreground and
/// background color styling. Whether colorized or not, the styled
/// text always contains the glyph, so it is never empty; its exact
/// form depends on the terminal environment and is not stated.
#[verifier::external_body]
fn style_fg_bg(glyph: char, r: u8, g: u8, b: u8, bg_r: u8, bg_g: u8, bg_b: u8) -> (s: String)
    ensures
        s@.len() >= 1,
        s@.contains(glyph),
{
    let text = glyph.to_string();
    text.truecolor(r, g, b).on_truecolor(bg_r, bg_g, bg_b).to_string()
}

/// The text one cell contributes to its line: a bare space for a blank
/// cell, the glyph wrapped in color styling otherwise. A colored
/// cell's text always contains its glyph; every cell contributes at
/// least one character.
pub fn cell_text(cell: &CellOut) -> (s: String)
    ensures
        cell.fg is None ==> s@ == " "@,
        cell.fg is Some ==> s@.contains(cell.glyph),
        s@.len() >= 1,
{
    proof {
        reveal_strlit(" ");
    }
    match cell.fg {
        None => " ".to_owned(),
        Some((r, g, b)) => match cell.bg {
            None => style_fg(cell.glyph, r, g, b),
            Some((bg_r, bg_g, bg_b)) => style_fg_bg(cell.glyph, r, g, b, bg_r, bg_g, bg_b),
        },
    }
}

/// Renders one row of pixels to one styled text line: the
/// concatenation, in order, of one part per pixel — a bare space for
/// a blank cell, a styled text containing the cell's glyph otherwise.
/// Every pixel contributes at least one character to the line.
pub fn emit_row(
    row: &Vec<(u8, u8, u8, u8)>,
    curve: &ContrastCurve,
    palette: &Palette,
    opts: &RenderOptions,
) -> (line: String)
    requires
        curve.wf(),
        palette.wf(),
    ensures
        line@.len() >= row@.len(),
        line_renders_cells(
            line@,
            spec_row_cells(
                row@,
                curve.entries(),
                palette.glyphs@,
                palette.invert_polarity,
                opts.invert,
                opts.background,
            ),
        ),
{
    let ghost row_cells = spec_row_cells(
        row@,
        curve.entries(),
        palette.glyphs@,
        palette.invert_polarity,
        opts.invert,
        opts.background,
    );
    let cells = render_row_cells(row, curve, palette, opts);
    let mut line = String::new();
    let ghost mut parts: Seq<Seq<char>> = Seq::empty();
    let mut x: usize = 0;
    proof {
        assert(line@ =~= parts.flatten());
    }
    while x < cells.len()
        invariant
            x <= cells@.len(),
            cells@.len() == row@.len(),
            forall|i: int|
                0 <= i < cells@.len() ==> cells@[i] == spec_render_cell(
                    row@[i],
                    curve.entries(),
                    palette.glyphs@,
                    palette.invert_polarity,
                    opts.invert,
                    opts.background,
                ),
            line@.len() >= x,
            parts.len() == x,
            line@ == parts.flatten(),
            forall|i: int| 0 <= i < x ==> (#[trigger] parts[i]).contains(cells@[i].glyph),
            forall|i: int| 0 <= i < x ==> (#[trigger] parts[i]).len() >= 1,
            forall|i: int| 0 <= i < x ==> (cells@[i].fg is None ==> (#[trigger] parts[i]) == " "@),
        decreases cells@.len() - x,
    {
        let part = cell_text(&cells[x]);
        proof {
            parts.lemma_flatten_push(part@);
            if cells@[x as int].fg is None {
                reveal_strlit(" ");
                assert(" "@[0] == ' ');
                assert(" "@.contains(' '));
                assert(cells@[x as int] == spec_render_cell(
                    row@[x as int],
                    curve.entries(),
                    palette.glyphs@,
                    palette.invert_polarity,
                    opts.invert,
                    opts.background,
                ));
                assert(cells@[x as int].glyph == ' ');
            }
            parts = parts.push(part@);
        }
        line.append(part.as_str());
        x = x + 1;
    }
    proof {
        assert(parts.len() == row_cells.len() && line@ == parts.flatten() && (forall|i: int|
            0 <= i < row_cells.len() ==> (#[trigger] parts[i]).contains(row_cells[i].glyph))
            && (forall|i: int| 0 <= i < row_cells.len() ==> (#[trigger] parts[i]).len() >= 1) && (
        forall|i: int|
            0 <= i < row_cells.len() ==> (row_cells[i].fg is None ==> (#[trigger] parts[i])
                == " "@)));
        assert(line_renders_cells(line@, row_cells));
    }
    line
}

/// Renders a pixel grid to styled text lines: one line per row, top
/// to bottom, each rendering its row's cells in order and holding at
/// least one character per pixel of the row.
pub fn emit_frame(
    grid: &PixelGrid,
    curve: &ContrastCurve,
    palette: &Palette,
    opts: &RenderOptions,
) -> (lines: Vec<String>)
    requires
        grid.wf(),
        curve.wf(),
        palette.wf(),
    ensures
        lines@.len() == grid.rows@.len(),
        forall|y: int| 0 <= y < lines@.len() ==> (#[trigger] lines@[y])@.len() >= grid.width,
        forall|y: int|
            0 <= y < lines@.len() ==> line_renders_cells(
                (#[trigger] lines@[y])@,
                spec_row_cells(
                    grid.rows@[y]@,
                    curve.entries(),
                    palette.glyphs@,
                    palette.invert_polarity,
                    opts.invert,
                    opts.background,
                ),
            ),
{
    let mut lines: Vec<String> = Vec::new();
    let mut y: usize = 0;
    while y < grid.rows.len()
        invariant
            y <= grid.rows@.len(),
            lines@.len() == y,
            grid.wf(),
            curve.wf(),
            palette.wf(),
            forall|i: int| 0 <= i < y ==> (#[trigger] lines@[i])@.len() >= grid.width,
            forall|i: int|
                0 <= i < y ==> line_renders_cells(
                    (#[trigger] lines@[i])@,
                    spec_row_cells(
                        grid.rows@[i]@,
                        curve.entries(),
                        palette.glyphs@,
                        palette.invert_polarity,
                        opts.invert,
                        opts.background,
                    ),
                ),
        decreases grid.rows@.len() - y,
    {
        let line = emit_row(&grid.rows[y], curve, palette, opts);
        lines.push(line);
        y = y + 1;
    }
    lines
}

} // verus!
