use wio_exercise::accelerometer::{readings_backdrop, readings_ops};
use wio_exercise::canvas::{Baseline, Color, DrawOp, Font, Point};
use wio_exercise::microphone::sum_text;

fn large(text: &str, x: i32, y: i32) -> DrawOp {
    DrawOp::Text {
        text: String::from(text),
        position: Point::new(x, y),
        font: Font::Ascii10x20,
        color: Color::White,
        baseline: Baseline::Alphabetic,
    }
}

#[test]
fn readings_go_one_below_the_other() {
    let ops = readings_ops(String::from("0.01"), String::from("-0.02"), String::from("1.0"));
    assert_eq!(ops, vec![large("0.01", 15, 15), large("-0.02", 15, 35), large("1.0", 15, 50)]);
}

#[test]
fn the_readings_box_is_blanked() {
    assert_eq!(
        readings_backdrop(),
        DrawOp::Fill { corner_a: Point::new(0, 0), corner_b: Point::new(150, 60), color: Color::Black }
    );
}

#[test]
fn the_sum_goes_near_the_top_left_corner() {
    assert_eq!(sum_text(String::from("170666620.0")), large("170666620.0", 15, 15));
}
