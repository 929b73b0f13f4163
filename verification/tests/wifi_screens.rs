use wio_exercise::canvas::{write_with_clear, Color, DrawOp, Point};
use wio_exercise::wifi::{connection_ops, header_ops, scan_count_ops, scan_rows_ops, version_position, ApRow, ScanEvent, ScanPhase};

fn text_of(op: &DrawOp) -> (String, Point) {
    match op {
        DrawOp::Text { text, position, .. } => (text.clone(), *position),
        _ => panic!("not a text"),
    }
}

#[test]
fn the_version_is_right_aligned() {
    assert_eq!(version_position(5), Point::new(257, 3));
    assert_eq!(version_position(0), Point::new(317, 3));
    assert_eq!(version_position(26), Point::new(5, 3));
}

#[test]
fn header_puts_version_right_and_mac_left() {
    let ops = header_ops(String::from("fw: 2.1.2\n"), 5, String::from("mac: 2C:F7\n"));
    assert_eq!(ops.len(), 2);
    assert_eq!(text_of(&ops[0]), (String::from("fw: 2.1.2\n"), Point::new(257, 3)));
    assert_eq!(text_of(&ops[1]), (String::from("mac: 2C:F7\n"), Point::new(3, 3)));
}

#[test]
fn connection_lines_are_one_line_apart() {
    let ops = connection_ops(String::from("ip"), String::from("mask"), String::from("gw"));
    let lines: Vec<(String, Point)> = ops.iter().map(text_of).collect();
    assert_eq!(
        lines,
        vec![
            (String::from("ip"), Point::new(3, 30)),
            (String::from("mask"), Point::new(3, 42)),
            (String::from("gw"), Point::new(3, 54)),
        ]
    );
}

fn row(name: &str, band: u8) -> ApRow {
    ApRow { ssid: String::from(name), bssid: String::from("aa:bb"), rssi: String::from("-40"), band }
}

#[test]
fn scan_count_goes_top_right_over_a_blanked_field() {
    let ops = scan_count_ops(String::from("2 APs\n"));
    assert_eq!(ops, write_with_clear(String::from("2 APs\n"), 3, Point::new(170, 3)));
}

#[test]
fn scan_rows_show_each_reported_row() {
    let rows = vec![row("home", 0), row("office", 1), row("cafe", 0)];
    let ops = scan_rows_ops(2, rows);
    let mut expected = write_with_clear(String::from("home"), 25, Point::new(3, 30));
    expected.extend(write_with_clear(String::from("aa:bb"), 18, Point::new(150, 30)));
    expected.extend(write_with_clear(String::from("-40"), 4, Point::new(290, 30)));
    expected.extend(write_with_clear(String::from("office"), 25, Point::new(3, 42)));
    expected.extend(write_with_clear(String::from("aa:bb"), 18, Point::new(150, 42)));
    expected.extend(write_with_clear(String::from("-40"), 4, Point::new(290, 42)));
    expected.extend(write_with_clear(String::from("5G"), 3, Point::new(132, 42)));
    assert_eq!(ops, expected);
}

#[test]
fn scan_rows_stop_at_the_rows_they_have() {
    let ops = scan_rows_ops(9, vec![row("only", 0)]);
    assert_eq!(ops.len(), 6);
    assert_eq!(
        ops[0],
        DrawOp::Fill { corner_a: Point::new(3, 30), corner_b: Point::new(153, 42), color: Color::Black }
    );
    let ops = scan_rows_ops(0, vec![row("hidden", 1)]);
    assert!(ops.is_empty());
}

#[test]
fn a_scan_cycle() {
    let p = ScanPhase::start();
    assert_eq!(p, ScanPhase::Starting);
    let p = p.next(ScanEvent::Done);
    assert_eq!(p, ScanPhase::Polling);
    let p = p.next(ScanEvent::Scanning(true));
    assert_eq!(p, ScanPhase::Polling);
    let p = p.next(ScanEvent::Done);
    assert_eq!(p, ScanPhase::Polling);
    let p = p.next(ScanEvent::Scanning(false));
    assert_eq!(p, ScanPhase::Counting);
    let p = p.next(ScanEvent::Found(4));
    assert_eq!(p, ScanPhase::Fetching { count: 4 });
    let p = p.next(ScanEvent::Done);
    assert_eq!(p, ScanPhase::Showing { count: 4 });
    assert_eq!(p.next(ScanEvent::Done), ScanPhase::Starting);
}
