//! Drawing plans: what to put on the 320x240 LCD, as plain values.
//!
//! The functions here decide *where* and *what* is drawn; the program that
//! owns the display turns each [`DrawOp`] into an embedded-graphics call.

use vstd::prelude::*;

verus! {

/// A pixel position on the screen (x grows to the right, y downwards).
#[derive(Clone, Copy, Debug, PartialEq, Eq, Structural)]
pub struct Point {
    pub x: i32,
    pub y: i32,
}

impl Point {
    pub fn new(x: i32, y: i32) -> (p: Point)
        ensures
            p.x == x,
            p.y == y,
    {
        Point { x, y }
    }
}

/// The two colours the programs use.
#[derive(Clone, Copy, Debug, PartialEq, Eq, Structural)]
pub enum Color {
    Black,
    White,
}

/// The monospace fonts the programs draw text with.
#[derive(Clone, Copy, Debug, PartialEq, Eq, Structural)]
pub enum Font {
    Ascii6x12,
    Ascii9x15,
    Ascii10x20,
}

/// Where the text position sits relative to the glyphs.
#[derive(Clone, Copy, Debug, PartialEq, Eq, Structural)]
pub enum Baseline {
    /// The position is the top-left corner of the text.
    Top,
    /// The position lies on the alphabetic baseline.
    Alphabetic,
}

/// One drawing step.
#[derive(Debug, PartialEq, Eq)]
pub enum DrawOp {
    /// Fill the whole display with one colour.
    Clear { color: Color },
    /// Fill the rectangle spanned by two opposite corners (both included).
    Fill { corner_a: Point, corner_b: Point, color: Color },
    /// Draw a string.
    Text { text: String, position: Point, font: Font, color: Color, baseline: Baseline },
}

/// The mathematical content of a [`DrawOp`]: the text as a sequence of chars.
pub enum SpecDrawOp {
    Clear { color: Color },
    Fill { corner_a: Point, corner_b: Point, color: Color },
    Text { text: Seq<char>, position: Point, font: Font, color: Color, baseline: Baseline },
}

impl View for DrawOp {
    type V = SpecDrawOp;

    open spec fn view(&self) -> SpecDrawOp {
        match self {
            DrawOp::Clear { color } => SpecDrawOp::Clear { color: *color },
            DrawOp::Fill { corner_a, corner_b, color } => SpecDrawOp::Fill {
                corner_a: *corner_a,
                corner_b: *corner_b,
                color: *color,
            },
            DrawOp::Text { text, position, font, color, baseline } => SpecDrawOp::Text {
                text: text@,
                position: *position,
                font: *font,
                color: *color,
                baseline: *baseline,
            },
        }
    }
}

/// The views of a list of drawing steps, in order.
pub open spec fn ops_view(ops: Seq<DrawOp>) -> Seq<SpecDrawOp> {
    ops.map_values(|op: DrawOp| op@)
}

/// The views of two lists of drawing steps, one after the other.
pub proof fn lemma_ops_view_concat(a: Seq<DrawOp>, b: Seq<DrawOp>)
    ensures
        ops_view(a + b) == ops_view(a) + ops_view(b),
{
    assert(ops_view(a + b) =~= ops_view(a) + ops_view(b));
}

/// Width in pixels of one glyph of the 6x12 font.
pub const GLYPH_WIDTH: i32 = 6;

/// Height in pixels of one line of the 6x12 font.
pub const LINE_HEIGHT: i32 = 12;

/// The corner opposite the origin of the area that is blacked out before
/// the log and the scan results are drawn (the programs clear a 320x320
/// square, which covers the whole 320x240 panel).
pub open spec fn spec_backdrop_corner() -> Point {
    Point { x: 320, y: 320 }
}

/// The rectangle that blanks a region of `num_clear` glyphs of the 6x12
/// font starting at `pos`.
pub open spec fn spec_clear_box(pos: Point, num_clear: int) -> SpecDrawOp {
    SpecDrawOp::Fill {
        corner_a: pos,
        corner_b: Point { x: (pos.x + GLYPH_WIDTH * num_clear) as i32, y: (pos.y + LINE_HEIGHT) as i32 },
        color: Color::Black,
    }
}

/// White 6x12 text whose top-left corner is `pos`.
pub open spec fn spec_small_text(text: Seq<char>, pos: Point) -> SpecDrawOp {
    SpecDrawOp::Text {
        text,
        position: pos,
        font: Font::Ascii6x12,
        color: Color::White,
        baseline: Baseline::Top,
    }
}

/// Black out the screen area behind the scan results and the log.
pub fn clear_screen() -> (op: DrawOp)
    ensures
        op@ == (SpecDrawOp::Fill {
            corner_a: Point { x: 0, y: 0 },
            corner_b: spec_backdrop_corner(),
            color: Color::Black,
        }),
{
    DrawOp::Fill { corner_a: Point::new(0, 0), corner_b: Point::new(320, 320), color: Color::Black }
}

/// Fill the whole display with black.
pub fn clear_display() -> (op: DrawOp)
    ensures
        op@ == (SpecDrawOp::Clear { color: Color::Black }),
{
    DrawOp::Clear { color: Color::Black }
}

/// Black out the visible 320x240 panel.
pub fn blank_panel() -> (op: DrawOp)
    ensures
        op@ == (SpecDrawOp::Fill {
            corner_a: Point { x: 0, y: 0 },
            corner_b: Point { x: 320, y: 240 },
            color: Color::Black,
        }),
{
    DrawOp::Fill { corner_a: Point::new(0, 0), corner_b: Point::new(320, 240), color: Color::Black }
}

/// Draw `text` in white 6x12 glyphs with its top-left corner at `pos`.
pub fn write(text: String, pos: Point) -> (op: DrawOp)
    ensures
        op@ == spec_small_text(text@, pos),
{
    DrawOp::Text { text, position: pos, font: Font::Ascii6x12, color: Color::White, baseline: Baseline::Top }
}

/// Blank `num_clear` glyph cells starting at `pos`, then draw `text` there.
pub fn write_with_clear(text: String, num_clear: i32, pos: Point) -> (ops: Vec<DrawOp>)
    requires
        i32::MIN <= GLYPH_WIDTH * num_clear <= i32::MAX,
        i32::MIN <= pos.x + GLYPH_WIDTH * num_clear <= i32::MAX,
        pos.y + LINE_HEIGHT <= i32::MAX,
    ensures
        ops_view(ops@) == seq![spec_clear_box(pos, num_clear as int), spec_small_text(text@, pos)],
{
    let corner = Point::new(pos.x + GLYPH_WIDTH * num_clear, pos.y + LINE_HEIGHT);
    let mut ops: Vec<DrawOp> = Vec::new();
    ops.push(DrawOp::Fill { corner_a: pos, corner_b: corner, color: Color::Black });
    ops.push(write(text, pos));
    assert(ops_view(ops@) =~= seq![spec_clear_box(pos, num_clear as int), spec_small_text(text@, pos)]);
    ops
}

} // verus!
