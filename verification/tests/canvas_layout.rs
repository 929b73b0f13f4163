use wio_exercise::canvas::{blank_panel, clear_display, clear_screen, write_with_clear, Baseline, Color, DrawOp, Font, Point};

#[test]
fn clear_screen_covers_the_backdrop_square() {
    assert_eq!(
        clear_screen(),
        DrawOp::Fill { corner_a: Point::new(0, 0), corner_b: Point::new(320, 320), color: Color::Black }
    );
}

#[test]
fn blank_panel_covers_the_visible_panel() {
    assert_eq!(
        blank_panel(),
        DrawOp::Fill { corner_a: Point::new(0, 0), corner_b: Point::new(320, 240), color: Color::Black }
    );
    assert_eq!(clear_display(), DrawOp::Clear { color: Color::Black });
}

#[test]
fn write_draws_small_white_text_at_the_top_left_corner() {
    let op = wio_exercise::canvas::write(String::from("mac: 00:11"), Point::new(3, 3));
    assert_eq!(
        op,
        DrawOp::Text {
            text: String::from("mac: 00:11"),
            position: Point::new(3, 3),
            font: Font::Ascii6x12,
            color: Color::White,
            baseline: Baseline::Top,
        }
    );
}

#[test]
fn write_with_clear_blanks_the_cells_first() {
    let ops = write_with_clear(String::from("7 APs"), 3, Point::new(170, 3));
    assert_eq!(ops.len(), 2);
    assert_eq!(
        ops[0],
        DrawOp::Fill { corner_a: Point::new(170, 3), corner_b: Point::new(188, 15), color: Color::Black }
    );
    assert_eq!(ops[1], wio_exercise::canvas::write(String::from("7 APs"), Point::new(170, 3)));
}

#[test]
fn write_with_clear_for_a_long_field() {
    let ops = write_with_clear(String::from("ssid"), 25, Point::new(3, 42));
    assert_eq!(
        ops[0],
        DrawOp::Fill { corner_a: Point::new(3, 42), corner_b: Point::new(153, 54), color: Color::Black }
    );
}
