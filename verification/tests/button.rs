use radio::button::{classify_press, DEBOUNCE_MS, LONG_PRESS_MS};
use radio::event::InputEvent;

#[test]
fn bounce_is_discarded() {
    assert_eq!(classify_press(0), None);
    assert_eq!(classify_press(1), None);
    assert_eq!(classify_press(49), None);
}

#[test]
fn short_press_starts_at_fifty_milliseconds() {
    assert_eq!(classify_press(50), Some(InputEvent::ShortPress));
    assert_eq!(classify_press(51), Some(InputEvent::ShortPress));
    assert_eq!(classify_press(300), Some(InputEvent::ShortPress));
}

#[test]
fn short_press_ends_before_six_hundred_milliseconds() {
    assert_eq!(classify_press(599), Some(InputEvent::ShortPress));
    assert_eq!(classify_press(600), Some(InputEvent::LongPress));
}

#[test]
fn long_press_has_no_upper_limit() {
    assert_eq!(classify_press(601), Some(InputEvent::LongPress));
    assert_eq!(classify_press(60_000), Some(InputEvent::LongPress));
    assert_eq!(classify_press(u128::MAX), Some(InputEvent::LongPress));
}

#[test]
fn thresholds_have_their_documented_values() {
    assert_eq!(DEBOUNCE_MS, 50);
    assert_eq!(LONG_PRESS_MS, 600);
}

#[test]
fn every_duration_up_to_a_second_is_classified_by_the_thresholds() {
    for d in 0u128..1000 {
        let expected = if d < 50 {
            None
        } else if d < 600 {
            Some(InputEvent::ShortPress)
        } else {
            Some(InputEvent::LongPress)
        };
        assert_eq!(classify_press(d), expected);
    }
}
