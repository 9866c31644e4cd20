//! Glyph palettes: ordered glyph sequences plus a polarity flag.
//!
//! Every palette is authored from the visually densest glyph to the
//! sparsest and ends with a blank. The polarity flag records whether
//! index arithmetic has to be flipped so that darker brightness lands
//! on the denser end.

use vstd::prelude::*;

verus! {

/// The closed set of palette modes a caller can ask for. An
/// unrecognized mode name falls back to [`PaletteMode::Ascii`];
/// see [`parse_mode`].
#[derive(Clone, Copy, PartialEq, Eq, Structural, Debug)]
pub enum PaletteMode {
    Blocks,
    Bubbles,
    Geometric,
    Ascii,
}

/// An ordered, non-empty glyph sequence plus a polarity flag.
pub struct Palette {
    /// The glyphs, ordered dense-first, ending with a blank.
    pub glyphs: Vec<char>,
    /// Whether the palette index has to be flipped before lookup, so
    /// that high brightness lands on the sparse end of the sequence.
    pub invert_polarity: bool,
}

impl Palette {
    /// The palette invariant: at least one glyph, and few enough that
    /// index arithmetic over `255 * (len - 1)` fits in a `usize`.
    pub open spec fn wf(self) -> bool {
        &&& self.glyphs@.len() >= 1
        &&& 255 * (self.glyphs@.len() - 1) <= usize::MAX
    }
}

/// The glyph sequence of each mode.
pub open spec fn spec_palette_glyphs(mode: PaletteMode) -> Seq<char> {
    match mode {
        PaletteMode::Blocks => "█▓▒░ "@,
        PaletteMode::Bubbles => "●◕○◌ "@,
        PaletteMode::Geometric => "■□▪▫ "@,
        PaletteMode::Ascii => ascii_glyph_seq(),
    }
}

/// The long curated dense-to-sparse character ramp of the ascii mode.
pub open spec fn ascii_glyph_seq() -> Seq<char> {
    "$@B%8&WM#*oahkbdpqwmZO0QLCJUYXzcvunxrjft/\\|()1{}[]?-_+~<>i!lI;:,\"^`'. "@
}

/// Whether the mode's palette is authored with flipped polarity.
pub open spec fn spec_palette_inverted(mode: PaletteMode) -> bool {
    match mode {
        PaletteMode::Blocks => true,
        PaletteMode::Bubbles => true,
        PaletteMode::Geometric => true,
        PaletteMode::Ascii => false,
    }
}

/// The mode a name denotes; any unrecognized name denotes the ascii mode.
pub open spec fn spec_mode_of(name: Seq<char>) -> PaletteMode {
    if name == "blocks"@ {
        PaletteMode::Blocks
    } else if name == "bubbles"@ {
        PaletteMode::Bubbles
    } else if name == "geometric"@ {
        PaletteMode::Geometric
    } else {
        PaletteMode::Ascii
    }
}

/// Whether a name is one of the recognized mode names.
pub open spec fn spec_mode_recognized(name: Seq<char>) -> bool {
    ||| name == "blocks"@
    ||| name == "bubbles"@
    ||| name == "geometric"@
    ||| name == "ascii"@
}

/// Maps a mode name to its palette mode. The second component says
/// whether the name was recognized; an unrecognized name falls back to
/// the ascii mode, and the caller may emit a warning.
pub fn parse_mode(name: &str) -> (r: (PaletteMode, bool))
    ensures
        r.0 == spec_mode_of(name@),
        r.1 == spec_mode_recognized(name@),
{
    let owned = name.to_owned();
    if owned == "blocks".to_owned() {
        (PaletteMode::Blocks, true)
    } else if owned == "bubbles".to_owned() {
        (PaletteMode::Bubbles, true)
    } else if owned == "geometric".to_owned() {
        (PaletteMode::Geometric, true)
    } else if owned == "ascii".to_owned() {
        (PaletteMode::Ascii, true)
    } else {
        (PaletteMode::Ascii, false)
    }
}

/// Collects the characters of a glyph ramp literal into a vector.
fn glyphs_of(s: &str) -> (v: Vec<char>)
    ensures
        v@ == s@,
{
    let n = s.unicode_len();
    let mut v: Vec<char> = Vec::new();
    let mut i: usize = 0;
    while i < n
        invariant
            i <= n,
            n == s@.len(),
            v@ =~= s@.subrange(0, i as int),
        decreases n - i,
    {
        v.push(s.get_char(i));
        proof {
            assert(v@ =~= s@.subrange(0, i + 1));
        }
        i = i + 1;
    }
    proof {
        assert(v@ =~= s@);
    }
    v
}

/// Builds the palette of a mode. Every mode's palette is non-empty;
/// the three symbolic modes have five glyphs and flipped polarity,
/// and the ascii mode has a seventy-glyph ramp with plain polarity.
pub fn select_palette(mode: PaletteMode) -> (p: Palette)
    ensures
        p.wf(),
        p.glyphs@ == spec_palette_glyphs(mode),
        p.invert_polarity == spec_palette_inverted(mode),
        p.glyphs@.len() >= 1,
        mode != PaletteMode::Ascii ==> p.glyphs@.len() == 5 && p.invert_polarity,
        mode == PaletteMode::Ascii ==> p.glyphs@.len() == 70 && !p.invert_polarity,
{
    proof {
        reveal_strlit("█▓▒░ ");
        reveal_strlit("●◕○◌ ");
        reveal_strlit("■□▪▫ ");
        reveal_strlit(
            "$@B%8&WM#*oahkbdpqwmZO0QLCJUYXzcvunxrjft/\\|()1{}[]?-_+~<>i!lI;:,\"^`'. ",
        );
    }
    match mode {
        PaletteMode::Blocks => Palette { glyphs: glyphs_of("█▓▒░ "), invert_polarity: true },
        PaletteMode::Bubbles => Palette { glyphs: glyphs_of("●◕○◌ "), invert_polarity: true },
        PaletteMode::Geometric => Palette { glyphs: glyphs_of("■□▪▫ "), invert_polarity: true },
        PaletteMode::Ascii => Palette {
            glyphs: glyphs_of(
                "$@B%8&WM#*oahkbdpqwmZO0QLCJUYXzcvunxrjft/\\|()1{}[]?-_+~<>i!lI;:,\"^`'. ",
            ),
            invert_polarity: false,
        },
    }
}

} // verus!
