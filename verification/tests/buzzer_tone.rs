use wio_exercise::buzzer::{half_duty, TONE_HZ, TONE_MS};

#[test]
fn half_duty_rounds_down() {
    assert_eq!(half_duty(1000), 500);
    assert_eq!(half_duty(4095), 2047);
    assert_eq!(half_duty(0), 0);
    assert_eq!(TONE_HZ, 261);
    assert_eq!(TONE_MS, 1000);
}
