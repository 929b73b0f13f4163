use wio_exercise::microphone::{sample_queue, store_sample, take_sample, SampleRange};

#[test]
fn samples_come_out_in_the_order_they_went_in() {
    let mut q = sample_queue();
    assert!(store_sample(&mut q, Some(10)));
    assert!(!store_sample(&mut q, None));
    assert!(store_sample(&mut q, Some(20)));
    assert_eq!(take_sample(&mut q), Some(10));
    assert!(store_sample(&mut q, Some(30)));
    assert_eq!(take_sample(&mut q), Some(20));
    assert_eq!(take_sample(&mut q), Some(30));
    assert_eq!(take_sample(&mut q), None);
}

#[test]
fn a_sample_stored_into_a_full_queue_empties_it() {
    let mut q = sample_queue();
    for v in 0..7u16 {
        assert!(store_sample(&mut q, Some(v)));
    }
    assert!(!store_sample(&mut q, Some(99)));
    assert_eq!(take_sample(&mut q), None);
    assert!(store_sample(&mut q, Some(5)));
    assert_eq!(take_sample(&mut q), Some(5));
}

#[test]
fn a_missing_sample_leaves_a_full_queue_alone() {
    let mut q = sample_queue();
    for v in 0..7u16 {
        assert!(store_sample(&mut q, Some(v)));
    }
    assert!(!store_sample(&mut q, None));
    for v in 0..7u16 {
        assert_eq!(take_sample(&mut q), Some(v));
    }
    assert_eq!(take_sample(&mut q), None);
}

#[test]
fn the_range_covers_every_sample() {
    let mut r = SampleRange::new();
    assert_eq!(r.range(), None);
    for v in [2048u16, 1990, 2111, 2050, 4095, 0, 2000] {
        r.observe(v);
    }
    assert_eq!(r.range(), Some((0, 4095)));
    let mut r = SampleRange::new();
    r.observe(7);
    assert_eq!(r.range(), Some((7, 7)));
}
