use wio_exercise::flash::{ReadyWait, Status1, Status2, StatusQuery};

#[test]
fn status1_fields() {
    let s = Status1(0b1011_0101);
    assert!(s.busy());
    assert!(!s.write_en());
    assert_eq!(s.block_protect(), 0b101);
    assert!(s.tb_protect());
    assert!(!s.sector_block_protect());
    assert!(s.srp());
    let s = Status1(0b0101_1010);
    assert!(!s.busy());
    assert!(s.write_en());
    assert_eq!(s.block_protect(), 0b110);
    assert!(!s.tb_protect());
    assert!(s.sector_block_protect());
    assert!(!s.srp());
}

#[test]
fn status2_fields() {
    let s = Status2(0x02);
    assert!(s.quad_en());
    assert!(!s.sr_lock());
    assert!(!s.suspend());
    assert_eq!(s.lock_bits(), 0);
    let s = Status2(0b1111_1001);
    assert!(s.sr_lock());
    assert!(!s.quad_en());
    assert_eq!(s.lock_bits(), 0b111);
    assert!(s.cmp_protect());
    assert!(s.suspend());
}

#[test]
fn waiting_polls_status1_then_status2() {
    let w = ReadyWait::start();
    assert_eq!(w.query(), Some(StatusQuery::Status1));
    let w = w.feed(0x01);
    assert_eq!(w, ReadyWait::AwaitIdle);
    let w = w.feed(0x02);
    assert_eq!(w, ReadyWait::AwaitResume);
    assert_eq!(w.query(), Some(StatusQuery::Status2));
    let w = w.feed(0x80);
    assert_eq!(w, ReadyWait::AwaitResume);
    let w = w.feed(0x7f);
    assert_eq!(w, ReadyWait::Ready);
    assert_eq!(w.query(), None);
    assert_eq!(w.feed(0xff), ReadyWait::Ready);
}

#[test]
fn an_idle_chip_is_ready_after_two_readings() {
    let mut w = ReadyWait::start();
    let mut readings = 0;
    while let Some(_) = w.query() {
        w = w.feed(0x00);
        readings += 1;
    }
    assert_eq!(readings, 2);
}
