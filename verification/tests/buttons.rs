use bedclock::keys::{
    average, charge_sample, detect_button, in_range, matches_sample, Button, KeyLine, Tolerance,
};

#[test]
fn exact_expected_classifies_line0() {
    let line = KeyLine::line0();
    assert_eq!(line.classify(1700), Some(Button::Right));
    assert_eq!(line.classify(850), Some(Button::Left));
    assert_eq!(line.classify(200), Some(Button::SpkrHigh));
    assert_eq!(line.classify(15), Some(Button::SpkrLow));
}

#[test]
fn exact_expected_classifies_line1() {
    let line = KeyLine::line1();
    assert_eq!(line.classify(4300), Some(Button::B2));
    assert_eq!(line.classify(1900), Some(Button::B1));
    assert_eq!(line.classify(950), Some(Button::Snooze));
    assert_eq!(line.classify(250), Some(Button::Time));
    assert_eq!(line.classify(15), Some(Button::OnOff));
}

#[test]
fn sample_between_buckets_yields_none() {
    // 500 falls between the Left band (596..=1189) and the SpkrHigh band
    // (141..=279) of line 0
    let line = KeyLine::line0();
    assert_eq!(line.classify(500), None);
    // far above every bucket of line 1
    let line1 = KeyLine::line1();
    assert_eq!(line1.classify(100_000), None);
}

#[test]
fn wide_band_boundaries() {
    // expected 850: accepted strictly above 850*7/10 = 595 and strictly
    // below 850*14/10 = 1190
    assert!(!in_range(595, 850));
    assert!(in_range(596, 850));
    assert!(in_range(1189, 850));
    assert!(!in_range(1190, 850));
}

#[test]
fn wide_small_value_boundaries() {
    // expected 15 is a small bucket: anything below twice the expected
    assert!(in_range(0, 15));
    assert!(in_range(29, 15));
    assert!(!in_range(30, 15));
}

#[test]
fn strict_band_boundaries() {
    // expected 100 under the strict calibration: above 80, below 120
    assert!(!matches_sample(80, 100, Tolerance::Strict));
    assert!(matches_sample(81, 100, Tolerance::Strict));
    assert!(matches_sample(119, 100, Tolerance::Strict));
    assert!(!matches_sample(120, 100, Tolerance::Strict));
}

#[test]
fn strict_small_value_boundaries() {
    // expected 5 is small under the strict calibration: below twice
    assert!(matches_sample(9, 5, Tolerance::Strict));
    assert!(!matches_sample(10, 5, Tolerance::Strict));
}

#[test]
fn left_press_scenario() {
    // a charge time exactly at the Left expectation classifies as Left
    assert_eq!(detect_button(0, 850), Some(Button::Left));
    // 1.5x the Left expectation leaves the Left band; on this table the
    // Right band (1191..=2379) covers it, so Right wins rather than none
    assert_eq!(detect_button(0, 1275), Some(Button::Right));
    // a sample no band covers yields no button
    assert_eq!(detect_button(0, 500), None);
}

#[test]
fn detect_button_line_dispatch() {
    assert_eq!(detect_button(1, 950), Some(Button::Snooze));
    assert_eq!(detect_button(1, 500), None);
}

#[test]
fn first_match_wins_priority_order() {
    // two deliberately overlapping buckets: 120 sits inside both the band
    // of 100 (71..=139) and the band of 110 (78..=153); the earlier entry
    // wins
    let line = KeyLine {
        table: vec![(100, Button::B1), (110, Button::B2)],
        tolerance: Tolerance::Wide,
    };
    assert_eq!(line.classify(120), Some(Button::B1));
}

#[test]
fn charge_sample_cap() {
    assert_eq!(charge_sample(0), Some(0));
    assert_eq!(charge_sample(6000), Some(6000));
    assert_eq!(charge_sample(6001), None);
}

#[test]
fn average_of_passes() {
    assert_eq!(average(None, None), None);
    assert_eq!(average(Some(4), None), Some(4));
    assert_eq!(average(None, Some(6)), Some(6));
    assert_eq!(average(Some(4), Some(6)), Some(5));
    // integer mean rounds down
    assert_eq!(average(Some(3), Some(4)), Some(3));
}
