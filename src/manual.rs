//! Overstrike decoding with the plain bold and underline attributes.
use vstd::prelude::*;
use crate::overstrike::{to_ansi, to_ansi_with, Palette, PaletteView};
use crate::text::{chars_of, string_of};

verus! {

pub const ANSI_RESET: &'static str = "\x1B[0m";

pub const ANSI_BOLD: &'static str = "\x1B[1m";

pub const ANSI_UNDERLINE: &'static str = "\x1B[4m";

/// Bold as `ESC[1m`, underline as `ESC[4m`.
pub open spec fn palette() -> PaletteView {
    PaletteView { bold: ANSI_BOLD@, underline: ANSI_UNDERLINE@, reset: ANSI_RESET@ }
}

/// Decodes overstrike text into ANSI text: bold for `c BACKSPACE c`,
/// underline for `_ BACKSPACE c`, with adjacent runs merged.
pub fn man_to_ansi(input: &str) -> (r: String)
    ensures
        r@ == to_ansi(input@, palette()),
{
    let p = Palette {
        bold: chars_of(ANSI_BOLD),
        underline: chars_of(ANSI_UNDERLINE),
        reset: chars_of(ANSI_RESET),
    };
    let out = to_ansi_with(&chars_of(input), &p);
    string_of(&out)
}

} // verus!
