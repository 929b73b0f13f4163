use wio_exercise::canvas::{Baseline, Color, DrawOp, Font, Point};
use wio_exercise::sdcard::{card_size_mb, chunk_text, fixed_timestamp, listing_line, status_line, Timestamp};

#[test]
fn card_size_in_mebibytes() {
    assert_eq!(card_size_mb(0), 0);
    assert_eq!(card_size_mb(1_048_575), 0);
    assert_eq!(card_size_mb(1_048_576), 1);
    assert_eq!(card_size_mb(31_914_983_424), 30436);
}

#[test]
fn status_and_listing_lines() {
    assert_eq!(
        status_line(String::from("OK! 30436Mb\n")),
        DrawOp::Text {
            text: String::from("OK! 30436Mb\n"),
            position: Point::new(4, 2),
            font: Font::Ascii9x15,
            color: Color::White,
            baseline: Baseline::Top,
        }
    );
    match listing_line(3, String::from("WTEST.TXT - Attributes { }\n")) {
        DrawOp::Text { position, font, .. } => {
            assert_eq!(position, Point::new(4, 68));
            assert_eq!(font, Font::Ascii9x15);
        }
        _ => panic!("not a text"),
    }
    match listing_line(0, String::from("Err\n")) {
        DrawOp::Text { position, .. } => assert_eq!(position, Point::new(4, 20)),
        _ => panic!("not a text"),
    }
}

#[test]
fn chunk_text_reads_bytes_as_latin1() {
    let line = chunk_text(b"Hi!\n").unwrap();
    assert_eq!(line.as_str(), "Hi!\n");
    let line = chunk_text(&[0x63, 0x61, 0x66, 0xe9]).unwrap();
    assert_eq!(line.as_str(), "café");
    let line = chunk_text(&[]).unwrap();
    assert_eq!(line.as_str(), "");
}

#[test]
fn chunk_text_fills_a_line_of_128_bytes() {
    let ascii = [b'x'; 128];
    assert_eq!(chunk_text(&ascii).unwrap().len(), 128);
    let high = [0xe9u8; 64];
    assert_eq!(chunk_text(&high).unwrap().len(), 128);
    let mut over = [b'x'; 128];
    over[0] = 0xe9;
    assert!(chunk_text(&over).is_err());
    assert!(chunk_text(&[0xe9u8; 65]).is_err());
}

#[test]
fn files_are_stamped_with_the_epoch() {
    assert_eq!(
        fixed_timestamp(),
        Timestamp { year_since_1970: 0, zero_indexed_month: 0, zero_indexed_day: 0, hours: 0, minutes: 0, seconds: 0 }
    );
}
