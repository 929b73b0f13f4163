//! The accelerometer program's screen: three readings, one per axis, in
//! large text, over a box that is blanked between frames.

use vstd::prelude::*;
use crate::canvas::{ops_view, Baseline, Color, DrawOp, Font, Point, SpecDrawOp};

verus! {

/// White 10x20 text standing on the baseline through `pos`.
pub open spec fn spec_reading_text(text: Seq<char>, pos: Point) -> SpecDrawOp {
    SpecDrawOp::Text { text, position: pos, font: Font::Ascii10x20, color: Color::White, baseline: Baseline::Alphabetic }
}

/// White 10x20 text standing on the baseline through `pos`.
pub fn reading_text(text: String, pos: Point) -> (op: DrawOp)
    ensures
        op@ == spec_reading_text(text@, pos),
{
    DrawOp::Text { text, position: pos, font: Font::Ascii10x20, color: Color::White, baseline: Baseline::Alphabetic }
}

/// The readings of the x, y and z axes, from the top down.
pub fn readings_ops(x_text: String, y_text: String, z_text: String) -> (ops: Vec<DrawOp>)
    ensures
        ops_view(ops@) == seq![
            spec_reading_text(x_text@, Point { x: 15, y: 15 }),
            spec_reading_text(y_text@, Point { x: 15, y: 35 }),
            spec_reading_text(z_text@, Point { x: 15, y: 50 }),
        ],
{
    let mut ops: Vec<DrawOp> = Vec::new();
    ops.push(reading_text(x_text, Point::new(15, 15)));
    ops.push(reading_text(y_text, Point::new(15, 35)));
    ops.push(reading_text(z_text, Point::new(15, 50)));
    assert(ops_view(ops@) =~= seq![
        spec_reading_text(x_text@, Point { x: 15, y: 15 }),
        spec_reading_text(y_text@, Point { x: 15, y: 35 }),
        spec_reading_text(z_text@, Point { x: 15, y: 50 }),
    ]);
    ops
}

/// The box blanked between frames, behind the readings.
pub fn readings_backdrop() -> (op: DrawOp)
    ensures
        op@ == (SpecDrawOp::Fill { corner_a: Point { x: 0, y: 0 }, corner_b: Point { x: 150, y: 60 }, color: Color::Black }),
{
    DrawOp::Fill { corner_a: Point::new(0, 0), corner_b: Point::new(150, 60), color: Color::Black }
}

} // verus!
