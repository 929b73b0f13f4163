//! A scrolling text log on the LCD.
//!
//! The cursor moves right one glyph cell per character, wraps to the next
//! line at the right edge or on `'\n'`, and once it falls below the bottom
//! of the panel the screen is wiped and writing restarts at the top-left.

use vstd::prelude::*;
use crate::canvas::Point;
use crate::font;

verus! {

/// Width of the panel in pixels: a cursor at or beyond it wraps.
pub const PANEL_WIDTH: i32 = 320;

/// Height of the panel in pixels: a cursor at or below it wipes the screen.
pub const PANEL_HEIGHT: i32 = 240;

/// What the log asks the display to do.
#[derive(Clone, Copy, Debug, PartialEq, Eq, Structural)]
pub enum TerminalOp {
    /// Black out the screen (the 320x320 backdrop of `canvas::clear_screen`).
    ClearScreen,
    /// Draw one character in white 6x12 glyphs with its top-left corner at `at`.
    Glyph { c: char, at: Point },
}

/// The log's state: where the next character goes and the glyph geometry.
pub struct Terminal {
    cursor: Point,
    advance: i32,
    line_height: i32,
}

/// The cursor after the line-wrap rule: a newline, or a cursor that has
/// reached the right edge, starts the next line.
pub open spec fn wrapped(cursor: Point, line_height: int, c: char) -> Point {
    if cursor.x >= PANEL_WIDTH || c == '\n' {
        Point { x: 0, y: (cursor.y + line_height) as i32 }
    } else {
        cursor
    }
}

/// Writing one character: the new cursor and the drawing steps.
pub open spec fn step(cursor: Point, advance: int, line_height: int, c: char) -> (Point, Seq<TerminalOp>) {
    let p = wrapped(cursor, line_height, c);
    let wiped = p.y >= PANEL_HEIGHT;
    let q = if wiped { Point { x: 0, y: 0 } } else { p };
    let wipe_ops = if wiped { seq![TerminalOp::ClearScreen] } else { Seq::<TerminalOp>::empty() };
    if c == '\n' {
        (q, wipe_ops)
    } else {
        (Point { x: (q.x + advance) as i32, y: q.y }, wipe_ops.push(TerminalOp::Glyph { c, at: q }))
    }
}

/// Writing a sequence of characters one after the other.
pub open spec fn write_chars(cursor: Point, advance: int, line_height: int, s: Seq<char>) -> (Point, Seq<TerminalOp>)
    decreases s.len(),
{
    if s.len() == 0 {
        (cursor, Seq::<TerminalOp>::empty())
    } else {
        let (mid, first_ops) = write_chars(cursor, advance, line_height, s.drop_last());
        let (end, last_ops) = step(mid, advance, line_height, s.last());
        (end, first_ops + last_ops)
    }
}

/// The cursor stays where the rules can put it: left of the right edge
/// plus one glyph, above the bottom edge.
pub open spec fn cursor_in_range(cursor: Point, advance: int) -> bool {
    &&& 0 <= cursor.x < PANEL_WIDTH + advance
    &&& 0 <= cursor.y < PANEL_HEIGHT
}

/// Where the cursor of a 6x12 log can be: on the grid of 6x12 cells, at
/// most one cell past the right edge, on a line that starts on the panel.
pub open spec fn on_grid(cursor: Point) -> bool {
    &&& cursor.x % 6 == 0
    &&& 0 <= cursor.x <= 324
    &&& cursor.y % 12 == 0
    &&& 0 <= cursor.y <= 228
}

/// Every glyph starts on the panel: in 0..=318 across, 0..=228 down.
pub open spec fn glyphs_in_cells(ops: Seq<TerminalOp>) -> bool {
    forall|i: int|
        0 <= i < ops.len() ==> match #[trigger] ops[i] {
            TerminalOp::Glyph { c, at } => 0 <= at.x <= 318 && 0 <= at.y <= 228,
            TerminalOp::ClearScreen => true,
        }
}

/// Glyph geometry that fits on the panel.
pub open spec fn geometry_ok(advance: int, line_height: int) -> bool {
    &&& 0 < advance <= PANEL_WIDTH
    &&& 0 < line_height <= PANEL_HEIGHT
}

impl Terminal {
    /// Where the next character goes.
    pub closed spec fn spec_cursor(&self) -> Point {
        self.cursor
    }

    /// Horizontal distance from one glyph to the next.
    pub closed spec fn spec_advance(&self) -> int {
        self.advance as int
    }

    /// Vertical distance from one line to the next.
    pub closed spec fn spec_line_height(&self) -> int {
        self.line_height as int
    }

    /// The state invariant of the log: cells of the 6x12 font, and the
    /// cursor on their grid.
    pub open spec fn wf(&self) -> bool {
        &&& self.spec_advance() == 6
        &&& self.spec_line_height() == 12
        &&& on_grid(self.spec_cursor())
    }

    /// A log on a wiped screen: returns the log, whose cursor starts at the
    /// top-left corner and whose cells are those of the 6x12 font, and the
    /// wipe to draw first.
    pub fn new() -> (r: (Terminal, TerminalOp))
        ensures
            r.0.wf(),
            r.0.spec_cursor() == (Point { x: 0, y: 0 }),
            r.0.spec_advance() == 6,
            r.0.spec_line_height() == 12,
            r.1 == TerminalOp::ClearScreen,
    {
        let m = font::ascii_6x12();
        let t = Terminal { cursor: Point::new(0, 0), advance: (m.width + m.spacing) as i32, line_height: m.height as i32 };
        (t, TerminalOp::ClearScreen)
    }

    /// Where the next character goes.
    pub fn cursor(&self) -> (p: Point)
        ensures
            p == self.spec_cursor(),
    {
        self.cursor
    }

    /// Write one character: returns what to draw, in order.
    pub fn write_character(&mut self, c: char) -> (ops: Vec<TerminalOp>)
        requires
            old(self).wf(),
        ensures
            final(self).wf(),
            final(self).spec_advance() == old(self).spec_advance(),
            final(self).spec_line_height() == old(self).spec_line_height(),
            (final(self).spec_cursor(), ops@) == step(
                old(self).spec_cursor(),
                old(self).spec_advance(),
                old(self).spec_line_height(),
                c,
            ),
    {
        proof {
            lemma_step_on_grid(self.cursor, c);
        }
        let mut ops: Vec<TerminalOp> = Vec::new();
        if self.cursor.x >= PANEL_WIDTH || c == '\n' {
            self.cursor = Point::new(0, self.cursor.y + self.line_height);
        }
        if self.cursor.y >= PANEL_HEIGHT {
            ops.push(TerminalOp::ClearScreen);
            self.cursor = Point::new(0, 0);
        }
        if c != '\n' {
            ops.push(TerminalOp::Glyph { c, at: self.cursor });
            self.cursor.x = self.cursor.x + self.advance;
        }
        ops
    }

    /// Write every character of `s` in turn: returns what to draw, in order.
    pub fn write_str(&mut self, s: &str) -> (ops: Vec<TerminalOp>)
        requires
            old(self).wf(),
        ensures
            final(self).wf(),
            final(self).spec_advance() == old(self).spec_advance(),
            final(self).spec_line_height() == old(self).spec_line_height(),
            (final(self).spec_cursor(), ops@) == write_chars(
                old(self).spec_cursor(),
                old(self).spec_advance(),
                old(self).spec_line_height(),
                s@,
            ),
    {
        let ghost start = self.spec_cursor();
        let ghost adv = self.spec_advance();
        let ghost lh = self.spec_line_height();
        let mut ops: Vec<TerminalOp> = Vec::new();
        for c in it: s.chars()
            invariant
                self.wf(),
                self.spec_advance() == adv,
                self.spec_line_height() == lh,
                it.seq() == s@,
                (self.spec_cursor(), ops@) == write_chars(start, adv, lh, s@.take(it.index() as int)),
        {
            let ghost i = it.index() as int;
            let mut more = self.write_character(c);
            ops.append(&mut more);
            proof {
                assert(s@.take(i + 1).drop_last() =~= s@.take(i));
                assert(s@.take(i + 1).last() == c);
            }
        }
        proof {
            assert(s@.take(s@.len() as int) =~= s@);
        }
        ops
    }
}


/// The characters that end up drawn, in order.
pub open spec fn glyph_chars(ops: Seq<TerminalOp>) -> Seq<char>
    decreases ops.len(),
{
    if ops.len() == 0 {
        Seq::<char>::empty()
    } else {
        let rest = glyph_chars(ops.drop_last());
        match ops.last() {
            TerminalOp::Glyph { c, at } => rest.push(c),
            TerminalOp::ClearScreen => rest,
        }
    }
}

/// The characters of `s` other than line breaks, in order.
pub open spec fn printable(s: Seq<char>) -> Seq<char>
    decreases s.len(),
{
    if s.len() == 0 {
        Seq::<char>::empty()
    } else if s.last() == '\n' {
        printable(s.drop_last())
    } else {
        printable(s.drop_last()).push(s.last())
    }
}

/// Every glyph lies on the panel: left of the right edge, above the bottom.
pub open spec fn glyphs_on_panel(ops: Seq<TerminalOp>) -> bool {
    forall|i: int|
        0 <= i < ops.len() ==> match #[trigger] ops[i] {
            TerminalOp::Glyph { c, at } => 0 <= at.x < PANEL_WIDTH && 0 <= at.y < PANEL_HEIGHT,
            TerminalOp::ClearScreen => true,
        }
}

proof fn lemma_glyph_chars_concat(a: Seq<TerminalOp>, b: Seq<TerminalOp>)
    ensures
        glyph_chars(a + b) == glyph_chars(a) + glyph_chars(b),
    decreases b.len(),
{
    if b.len() == 0 {
        assert(a + b =~= a);
    } else {
        lemma_glyph_chars_concat(a, b.drop_last());
        assert((a + b).drop_last() =~= a + b.drop_last());
        assert((a + b).last() == b.last());
    }
}

/// Writing one character keeps the cursor in range and draws on the panel.
proof fn lemma_step_in_range(cursor: Point, advance: int, line_height: int, c: char)
    requires
        geometry_ok(advance, line_height),
        cursor_in_range(cursor, advance),
    ensures
        cursor_in_range(step(cursor, advance, line_height, c).0, advance),
        glyphs_on_panel(step(cursor, advance, line_height, c).1),
        glyph_chars(step(cursor, advance, line_height, c).1) == (if c == '\n' {
            Seq::<char>::empty()
        } else {
            seq![c]
        }),
{
    let ops = step(cursor, advance, line_height, c).1;
    let p = wrapped(cursor, line_height, c);
    let q = if p.y >= PANEL_HEIGHT { Point { x: 0, y: 0 } } else { p };
    let wipe = if p.y >= PANEL_HEIGHT { seq![TerminalOp::ClearScreen] } else { Seq::<TerminalOp>::empty() };
    lemma_glyph_chars_single(TerminalOp::ClearScreen);
    lemma_glyph_chars_single(TerminalOp::Glyph { c, at: q });
    assert(glyph_chars(Seq::<TerminalOp>::empty()) =~= Seq::<char>::empty());
    assert(glyph_chars(wipe) =~= Seq::<char>::empty());
    if c != '\n' {
        assert(wipe.push(TerminalOp::Glyph { c, at: q }) =~= wipe + seq![TerminalOp::Glyph { c, at: q }]);
        lemma_glyph_chars_concat(wipe, seq![TerminalOp::Glyph { c, at: q }]);
        assert(glyph_chars(ops) =~= seq![c]);
    }
}

proof fn lemma_glyph_chars_single(op: TerminalOp)
    ensures
        glyph_chars(seq![op]) == match op {
            TerminalOp::Glyph { c, at } => seq![c],
            TerminalOp::ClearScreen => Seq::<char>::empty(),
        },
{
    assert(seq![op].drop_last() =~= Seq::<TerminalOp>::empty());
    assert(glyph_chars(Seq::<TerminalOp>::empty()) =~= Seq::<char>::empty());
    match op {
        TerminalOp::Glyph { c, at } => {
            assert(Seq::<char>::empty().push(c) =~= seq![c]);
        },
        TerminalOp::ClearScreen => {},
    }
}

/// Law: writing `a` and then `b` is writing `a + b`; the log keeps no
/// state besides the cursor.
pub proof fn lemma_write_concat(cursor: Point, advance: int, line_height: int, a: Seq<char>, b: Seq<char>)
    ensures
        write_chars(cursor, advance, line_height, a + b) == ({
            let (mid, ops_a) = write_chars(cursor, advance, line_height, a);
            let (end, ops_b) = write_chars(mid, advance, line_height, b);
            (end, ops_a + ops_b)
        }),
    decreases b.len(),
{
    if b.len() == 0 {
        assert(a + b =~= a);
        let ops_a = write_chars(cursor, advance, line_height, a).1;
        assert(ops_a + Seq::<TerminalOp>::empty() =~= ops_a);
    } else {
        lemma_write_concat(cursor, advance, line_height, a, b.drop_last());
        assert((a + b).drop_last() =~= a + b.drop_last());
        assert((a + b).last() == b.last());
        let (mid, ops_a) = write_chars(cursor, advance, line_height, a);
        let (m2, ops_b1) = write_chars(mid, advance, line_height, b.drop_last());
        let (end, ops_l) = step(m2, advance, line_height, b.last());
        assert(ops_a + ops_b1 + ops_l =~= ops_a + (ops_b1 + ops_l));
    }
}

/// Law: from any reachable cursor, writing any text keeps the cursor in
/// range, draws every glyph on the panel, and draws exactly the characters
/// of the text other than line breaks, in their order.
pub proof fn lemma_write_chars_faithful(cursor: Point, advance: int, line_height: int, s: Seq<char>)
    requires
        geometry_ok(advance, line_height),
        cursor_in_range(cursor, advance),
    ensures
        cursor_in_range(write_chars(cursor, advance, line_height, s).0, advance),
        glyphs_on_panel(write_chars(cursor, advance, line_height, s).1),
        glyph_chars(write_chars(cursor, advance, line_height, s).1) == printable(s),
    decreases s.len(),
{
    if s.len() > 0 {
        lemma_write_chars_faithful(cursor, advance, line_height, s.drop_last());
        let (mid, first_ops) = write_chars(cursor, advance, line_height, s.drop_last());
        lemma_step_in_range(mid, advance, line_height, s.last());
        let last_ops = step(mid, advance, line_height, s.last()).1;
        let all = first_ops + last_ops;
        assert forall|i: int| 0 <= i < all.len() implies match #[trigger] all[i] {
            TerminalOp::Glyph { c, at } => 0 <= at.x < PANEL_WIDTH && 0 <= at.y < PANEL_HEIGHT,
            TerminalOp::ClearScreen => true,
        } by {
            if i < first_ops.len() {
                assert(all[i] == first_ops[i]);
            } else {
                assert(all[i] == last_ops[i - first_ops.len()]);
            }
        }
        lemma_glyph_chars_concat(first_ops, last_ops);
        let c = s.last();
        if c == '\n' {
            assert(printable(s.drop_last()) + Seq::<char>::empty() =~= printable(s.drop_last()));
        } else {
            assert(printable(s.drop_last()) + seq![c] =~= printable(s.drop_last()).push(c));
        }
    }
}

/// Law: in a 6x12 log, writing one character keeps the cursor on the grid,
/// and the glyph it draws starts in 0..=318 across and 0..=228 down.
pub proof fn lemma_step_on_grid(cursor: Point, c: char)
    requires
        on_grid(cursor),
    ensures
        on_grid(step(cursor, 6, 12, c).0),
        glyphs_in_cells(step(cursor, 6, 12, c).1),
{
    let p = wrapped(cursor, 12, c);
    assert(p.x % 6 == 0 && 0 <= p.x && p.y % 12 == 0 && 0 <= p.y <= 240);
    if p.y < PANEL_HEIGHT {
        assert(p.y <= 228);
    }
    if !(cursor.x >= PANEL_WIDTH || c == '\n') {
        assert(p.x <= 318);
    }
}

/// Law: in a 6x12 log whose cursor is on the grid, writing any text keeps
/// the cursor on the grid and starts every glyph in 0..=318 across and
/// 0..=228 down.
pub proof fn lemma_write_chars_on_grid(cursor: Point, s: Seq<char>)
    requires
        on_grid(cursor),
    ensures
        on_grid(write_chars(cursor, 6, 12, s).0),
        glyphs_in_cells(write_chars(cursor, 6, 12, s).1),
    decreases s.len(),
{
    if s.len() > 0 {
        lemma_write_chars_on_grid(cursor, s.drop_last());
        let (mid, first_ops) = write_chars(cursor, 6, 12, s.drop_last());
        lemma_step_on_grid(mid, s.last());
        let last_ops = step(mid, 6, 12, s.last()).1;
        let all = first_ops + last_ops;
        assert forall|i: int| 0 <= i < all.len() implies match #[trigger] all[i] {
            TerminalOp::Glyph { c, at } => 0 <= at.x <= 318 && 0 <= at.y <= 228,
            TerminalOp::ClearScreen => true,
        } by {
            if i < first_ops.len() {
                assert(all[i] == first_ops[i]);
            } else {
                assert(all[i] == last_ops[i - first_ops.len()]);
            }
        }
    }
}

/// Law: a line break draws nothing and moves the cursor to the start of
/// the next line, exactly one line down from wherever it was; only when
/// that line starts below the panel is the screen wiped and the cursor put
/// back at the top-left corner.
pub proof fn lemma_newline_moves_one_line(cursor: Point, advance: int, line_height: int)
    requires
        geometry_ok(advance, line_height),
        cursor_in_range(cursor, advance),
    ensures
        cursor.y + line_height < PANEL_HEIGHT ==> step(cursor, advance, line_height, '\n') == (
        Point { x: 0, y: (cursor.y + line_height) as i32 }, Seq::<TerminalOp>::empty()),
        cursor.y + line_height >= PANEL_HEIGHT ==> step(cursor, advance, line_height, '\n') == (
        Point { x: 0, y: 0 }, seq![TerminalOp::ClearScreen]),
{
    assert(Seq::<TerminalOp>::empty().push(TerminalOp::ClearScreen) =~= seq![TerminalOp::ClearScreen]);
}

/// Law: any other character left of the right edge is drawn at the cursor,
/// which then moves one cell right on the same line; at or past the right
/// edge it goes to the start of the next line (wiping the screen and going
/// to the top-left corner when that line is below the panel) and moves one
/// cell right from there.
pub proof fn lemma_character_fills_one_cell(cursor: Point, advance: int, line_height: int, c: char)
    requires
        c != '\n',
        geometry_ok(advance, line_height),
        cursor_in_range(cursor, advance),
    ensures
        cursor.x < PANEL_WIDTH ==> step(cursor, advance, line_height, c) == (
        Point { x: (cursor.x + advance) as i32, y: cursor.y }, seq![TerminalOp::Glyph { c, at: cursor }]),
        cursor.x >= PANEL_WIDTH && cursor.y + line_height < PANEL_HEIGHT ==> step(cursor, advance, line_height, c) == ({
            let at = Point { x: 0, y: (cursor.y + line_height) as i32 };
            (Point { x: advance as i32, y: at.y }, seq![TerminalOp::Glyph { c, at }])
        }),
        cursor.x >= PANEL_WIDTH && cursor.y + line_height >= PANEL_HEIGHT ==> step(cursor, advance, line_height, c) == (
        Point { x: advance as i32, y: 0 }, seq![TerminalOp::ClearScreen, TerminalOp::Glyph { c, at: Point { x: 0, y: 0 } }]),
{
    let g = TerminalOp::Glyph { c, at: cursor };
    assert(Seq::<TerminalOp>::empty().push(g) =~= seq![g]);
    let g1 = TerminalOp::Glyph { c, at: Point { x: 0, y: (cursor.y + line_height) as i32 } };
    assert(Seq::<TerminalOp>::empty().push(g1) =~= seq![g1]);
    let g0 = TerminalOp::Glyph { c, at: Point { x: 0, y: 0 } };
    assert(seq![TerminalOp::ClearScreen].push(g0) =~= seq![TerminalOp::ClearScreen, g0]);
}

} // verus!
