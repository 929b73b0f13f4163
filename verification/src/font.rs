//! Glyph metrics of the embedded-graphics fonts the programs draw with.

use vstd::prelude::*;
use embedded_graphics::mono_font::ascii::FONT_6X12;

verus! {

/// Size of one glyph cell and the gap between adjacent glyphs, in pixels.
#[derive(Clone, Copy, Debug, PartialEq, Eq, Structural)]
pub struct FontMetrics {
    pub width: u32,
    pub height: u32,
    pub spacing: u32,
}

/// Reads `character_size` and `character_spacing` of embedded-graphics'
/// `mono_font::ascii::FONT_6X12`. The contract restates the values of that
/// constant as the crate's generated font table defines them: 6x12 pixel
/// cells with no extra spacing.
#[verifier::external_body]
pub(crate) fn ascii_6x12() -> (m: FontMetrics)
    ensures
        m.width == 6,
        m.height == 12,
        m.spacing == 0,
{
    FontMetrics {
        width: FONT_6X12.character_size.width,
        height: FONT_6X12.character_size.height,
        spacing: FONT_6X12.character_spacing,
    }
}

} // verus!
