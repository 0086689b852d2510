//! Overstrike decoding with the viewer's colours: purple for bold,
//! orange for underline.
use vstd::prelude::*;
use crate::overstrike::{to_ansi, to_ansi_with, Palette, PaletteView};
use crate::text::{chars_of, string_of};

verus! {

pub const ANSI_RESET: &'static str = "\x1B[0m";

pub const ANSI_ORANGE: &'static str = "\x1B[38;2;248;154;99m";

pub const ANSI_PURPLE: &'static str = "\x1b[38;2;152;120;209m";

/// Bold as purple, underline as orange.
pub open spec fn palette() -> PaletteView {
    PaletteView { bold: ANSI_PURPLE@, underline: ANSI_ORANGE@, reset: ANSI_RESET@ }
}

/// Decodes overstrike text into ANSI text in the viewer's colours, with
/// adjacent runs merged.
pub fn man_to_ansi(input: &str) -> (r: String)
    ensures
        r@ == to_ansi(input@, palette()),
{
    let p = Palette {
        bold: chars_of(ANSI_PURPLE),
        underline: chars_of(ANSI_ORANGE),
        reset: chars_of(ANSI_RESET),
    };
    let out = to_ansi_with(&chars_of(input), &p);
    string_of(&out)
}

} // verus!
