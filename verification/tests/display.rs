use bedclock::clock_data::ClockData;

fn state(hours: u8, minutes: u8) -> ClockData {
    let mut d = ClockData::new();
    d.hours = hours;
    d.minutes = minutes;
    d
}

const DIGIT_PATTERNS: [[u8; 7]; 10] = [
    [1, 1, 1, 0, 1, 1, 1],
    [0, 0, 1, 0, 1, 0, 0],
    [1, 0, 1, 1, 0, 1, 1],
    [1, 0, 1, 1, 1, 0, 1],
    [0, 1, 1, 1, 1, 0, 0],
    [1, 1, 0, 1, 1, 0, 1],
    [1, 1, 0, 1, 1, 1, 1],
    [1, 0, 1, 0, 1, 0, 0],
    [1, 1, 1, 1, 1, 1, 1],
    [1, 1, 1, 1, 1, 0, 1],
];

#[test]
fn digit_patterns_exact() {
    for digit in 0u8..10 {
        // ones-of-minutes position shows the digit itself
        let d = state(0, digit);
        assert_eq!(d.get_time_pins(3), DIGIT_PATTERNS[digit as usize]);
    }
}

#[test]
fn digit_patterns_deterministic() {
    // same value, same orientation: always the same pattern
    for digit in 0u8..10 {
        let a = state(digit, digit);
        let b = state(digit, digit);
        assert_eq!(a.get_time_pins(1), b.get_time_pins(1));
        assert_eq!(a.get_row_pins_ceiling(1), b.get_row_pins_ceiling(1));
    }
}

#[test]
fn undefined_glyph_out_of_range_position() {
    let d = state(12, 34);
    assert_eq!(d.get_time_pins(4), [1, 1, 0, 1, 0, 1, 1]);
}

#[test]
fn default_state_shows_all_eights() {
    let d = ClockData::new();
    assert_eq!(d.hours, 88);
    assert_eq!(d.minutes, 88);
    for pos in 0..4 {
        assert_eq!(d.get_time_pins(pos), DIGIT_PATTERNS[8]);
    }
}

#[test]
fn matrix_scenario_12_34_with_error_and_alarm() {
    // hours=12, minutes=34, error=3, alarm present and armed
    let mut d = state(12, 34);
    d.error = 3;
    d.has_alarm = true;
    d.alarm_enabled = true;
    assert_eq!(d.get_row_pins_led(0), DIGIT_PATTERNS[1]);
    assert_eq!(d.get_row_pins_led(2), DIGIT_PATTERNS[2]);
    assert_eq!(d.get_row_pins_led(4), DIGIT_PATTERNS[3]);
    assert_eq!(d.get_row_pins_led(6), DIGIT_PATTERNS[4]);
    // colon between the digit pairs
    assert_eq!(d.get_row_pins_led(3), [0, 1, 0, 0, 0, 1, 0]);
    // left icons: alarm-present bit set, alarm-disabled bit clear
    assert_eq!(d.get_row_pins_led(1), [0, 0, 0, 0, 0, 1, 0]);
    // right icons: error 3 = binary 0011, the two lowest icon bits
    assert_eq!(d.get_row_pins_led(5), [0, 0, 0, 0, 1, 1, 0]);
}

#[test]
fn left_icons_alarm_disabled() {
    let mut d = state(0, 0);
    d.has_alarm = false;
    d.alarm_enabled = false;
    assert_eq!(d.left_opts(), [0, 1, 0, 0, 0, 0, 0]);
}

#[test]
fn error_icons_zero_all_off() {
    let mut d = state(0, 0);
    d.error = 0;
    assert_eq!(d.right_opts(), [0, 0, 0, 0, 0, 0, 0]);
}

#[test]
fn error_icons_fifteen_all_on() {
    let mut d = state(0, 0);
    d.error = 15;
    assert_eq!(d.right_opts(), [0, 1, 1, 0, 1, 1, 0]);
}

#[test]
fn error_icons_clamped_above_fifteen() {
    let mut d = state(0, 0);
    d.error = 16;
    assert_eq!(d.right_opts(), [0, 1, 1, 0, 1, 1, 0]);
    d.error = 200;
    assert_eq!(d.right_opts(), [0, 1, 1, 0, 1, 1, 0]);
}

#[test]
fn error_icons_single_bits() {
    let mut d = state(0, 0);
    d.error = 1;
    assert_eq!(d.right_opts(), [0, 0, 0, 0, 0, 1, 0]);
    d.error = 2;
    assert_eq!(d.right_opts(), [0, 0, 0, 0, 1, 0, 0]);
    d.error = 4;
    assert_eq!(d.right_opts(), [0, 0, 1, 0, 0, 0, 0]);
    d.error = 8;
    assert_eq!(d.right_opts(), [0, 1, 0, 0, 0, 0, 0]);
}

#[test]
fn out_of_range_column_dark() {
    let d = state(12, 34);
    assert_eq!(d.get_row_pins_led(7), [0, 0, 0, 0, 0, 0, 0]);
}
