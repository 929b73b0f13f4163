use wio_exercise::canvas::Point;
use wio_exercise::terminal::{Terminal, TerminalOp};

fn fresh() -> Terminal {
    Terminal::new().0
}

#[test]
fn new_terminal_wipes_the_screen_and_starts_at_the_origin() {
    let (t, wipe) = Terminal::new();
    assert_eq!(wipe, TerminalOp::ClearScreen);
    assert_eq!(t.cursor(), Point::new(0, 0));
}

#[test]
fn a_character_is_drawn_and_the_cursor_moves_one_cell() {
    let mut t = fresh();
    let ops = t.write_character('a');
    assert_eq!(ops, vec![TerminalOp::Glyph { c: 'a', at: Point::new(0, 0) }]);
    // the 6x12 font: cells 6 pixels wide, no extra spacing
    assert_eq!(t.cursor(), Point::new(6, 0));
}

#[test]
fn a_newline_draws_nothing_and_starts_the_next_line() {
    let mut t = fresh();
    t.write_character('x');
    let ops = t.write_character('\n');
    assert!(ops.is_empty());
    // lines are 12 pixels apart
    assert_eq!(t.cursor(), Point::new(0, 12));
}

#[test]
fn the_cursor_wraps_at_the_right_edge() {
    let mut t = fresh();
    let line: String = std::iter::repeat('w').take(54).collect();
    let ops = t.write_str(&line);
    assert_eq!(ops.len(), 54);
    assert_eq!(ops[53], TerminalOp::Glyph { c: 'w', at: Point::new(318, 0) });
    assert_eq!(t.cursor(), Point::new(324, 0));
    let ops = t.write_character('z');
    assert_eq!(ops, vec![TerminalOp::Glyph { c: 'z', at: Point::new(0, 12) }]);
    assert_eq!(t.cursor(), Point::new(6, 12));
}

#[test]
fn falling_below_the_panel_wipes_the_screen() {
    let mut t = fresh();
    let ops = t.write_str("\n\n\n\n\n\n\n\n\n\n\n\n\n\n\n\n\n\n\n");
    assert!(ops.is_empty());
    assert_eq!(t.cursor(), Point::new(0, 228));
    let ops = t.write_character('\n');
    assert_eq!(ops, vec![TerminalOp::ClearScreen]);
    assert_eq!(t.cursor(), Point::new(0, 0));
}

#[test]
fn wiping_on_a_character_draws_it_at_the_origin() {
    let mut t = fresh();
    for _ in 0..19 {
        t.write_character('\n');
    }
    let long: String = std::iter::repeat('q').take(54).collect();
    t.write_str(&long);
    let ops = t.write_character('r');
    assert_eq!(ops, vec![TerminalOp::ClearScreen, TerminalOp::Glyph { c: 'r', at: Point::new(0, 0) }]);
    assert_eq!(t.cursor(), Point::new(6, 0));
}

#[test]
fn write_str_is_writing_each_character_in_turn() {
    let text = "erasing chip, please wait...DONE.\npost-erase read value: [255, 255, 255, 255]\n\n";
    let mut whole = fresh();
    let together = whole.write_str(text);
    let mut single = fresh();
    let mut apart = Vec::new();
    for c in text.chars() {
        apart.extend(single.write_character(c));
    }
    assert_eq!(together, apart);
    assert_eq!(whole.cursor(), single.cursor());
}

#[test]
fn every_glyph_is_on_the_panel_and_newlines_are_skipped() {
    let mut t = fresh();
    let mut text = String::new();
    for i in 0..2000u32 {
        text.push(if i % 37 == 0 { '\n' } else { char::from(b'a' + (i % 26) as u8) });
    }
    let ops = t.write_str(&text);
    let drawn: String = ops
        .iter()
        .filter_map(|op| match op {
            TerminalOp::Glyph { c, at } => {
                assert!(0 <= at.x && at.x < 320 && 0 <= at.y && at.y < 240);
                Some(*c)
            }
            TerminalOp::ClearScreen => None,
        })
        .collect();
    let expected: String = text.chars().filter(|c| *c != '\n').collect();
    assert_eq!(drawn, expected);
}

#[test]
fn non_ascii_characters_take_one_cell() {
    let mut t = fresh();
    let ops = t.write_str("é→");
    assert_eq!(
        ops,
        vec![
            TerminalOp::Glyph { c: 'é', at: Point::new(0, 0) },
            TerminalOp::Glyph { c: '→', at: Point::new(6, 0) },
        ]
    );
}
