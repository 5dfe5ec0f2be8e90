use mouse_debounce::buttons::{
    debounce_window_for, initialize_button_states, slot_of, window_override, BTN_EXTRA, BTN_LEFT,
    BTN_MIDDLE, BTN_RIGHT, BTN_SIDE, DEFAULT_DEBOUNCE_WINDOW,
};
use mouse_debounce::engine::{ButtonState, Verdict, KEY_PRESS, KEY_RELEASE};

const MS: u64 = 1_000_000;

#[test]
fn primary_press_bounce_release_press_scenario() {
    let mut table = initialize_button_states();
    assert_eq!(table.evaluate(BTN_LEFT, KEY_PRESS, 0), Verdict::Forward);
    assert_eq!(table.evaluate(BTN_LEFT, KEY_PRESS, 30 * MS), Verdict::Suppress);
    assert_eq!(table.evaluate(BTN_LEFT, KEY_RELEASE, 40 * MS), Verdict::Forward);
    assert_eq!(table.evaluate(BTN_LEFT, KEY_PRESS, 60 * MS), Verdict::Forward);
    let s = table.state_of(BTN_LEFT).unwrap();
    assert!(s.is_pressed);
    assert_eq!(s.last_accepted_time, Some(60 * MS));
}

#[test]
fn first_press_always_accepted() {
    let mut s = ButtonState::new(50 * MS);
    assert_eq!(s.evaluate(KEY_PRESS, 0), Verdict::Forward);
    assert!(s.is_pressed);
    assert_eq!(s.last_accepted_time, Some(0));
}

#[test]
fn press_within_window_is_suppressed_and_keeps_state() {
    let mut s = ButtonState::new(50 * MS);
    assert_eq!(s.evaluate(KEY_PRESS, 10 * MS), Verdict::Forward);
    let before = s;
    assert_eq!(s.evaluate(KEY_PRESS, 59 * MS), Verdict::Suppress);
    assert_eq!(s, before);
    assert!(s.is_pressed);
}

#[test]
fn press_exactly_at_window_is_suppressed() {
    let mut s = ButtonState::new(50 * MS);
    assert_eq!(s.evaluate(KEY_PRESS, 0), Verdict::Forward);
    assert_eq!(s.evaluate(KEY_RELEASE, 5 * MS), Verdict::Forward);
    assert_eq!(s.evaluate(KEY_PRESS, 50 * MS), Verdict::Suppress);
    assert_eq!(s.evaluate(KEY_PRESS, 50 * MS + 1), Verdict::Forward);
}

#[test]
fn release_without_accepted_press_is_suppressed() {
    let mut s = ButtonState::new(50 * MS);
    assert_eq!(s.evaluate(KEY_RELEASE, 0), Verdict::Suppress);
    assert_eq!(s.evaluate(KEY_PRESS, 1 * MS), Verdict::Forward);
    assert_eq!(s.evaluate(KEY_RELEASE, 2 * MS), Verdict::Forward);
    // bounce: press suppressed, its release too
    assert_eq!(s.evaluate(KEY_PRESS, 3 * MS), Verdict::Suppress);
    assert_eq!(s.evaluate(KEY_RELEASE, 4 * MS), Verdict::Suppress);
    assert!(!s.is_pressed);
}

#[test]
fn window_counts_from_accepted_press_not_release() {
    let mut s = ButtonState::new(50 * MS);
    assert_eq!(s.evaluate(KEY_PRESS, 100 * MS), Verdict::Forward);
    assert_eq!(s.evaluate(KEY_RELEASE, 149 * MS), Verdict::Forward);
    assert_eq!(s.evaluate(KEY_PRESS, 150 * MS + 1), Verdict::Forward);
}

#[test]
fn repeat_forwarded_after_suppressed_press() {
    let mut s = ButtonState::new(50 * MS);
    assert_eq!(s.evaluate(KEY_PRESS, 0), Verdict::Forward);
    assert_eq!(s.evaluate(KEY_PRESS, 1 * MS), Verdict::Suppress);
    let before = s;
    assert_eq!(s.evaluate(2, 2 * MS), Verdict::Forward);
    assert_eq!(s.evaluate(-1, 2 * MS), Verdict::Forward);
    assert_eq!(s, before);
}

#[test]
fn clock_going_back_counts_as_no_time() {
    let mut s = ButtonState::new(0);
    assert_eq!(s.evaluate(KEY_PRESS, 100), Verdict::Forward);
    assert_eq!(s.evaluate(KEY_PRESS, 50), Verdict::Suppress);
    assert_eq!(s.evaluate(KEY_PRESS, 101), Verdict::Forward);
}

#[test]
fn configured_windows() {
    assert_eq!(DEFAULT_DEBOUNCE_WINDOW, 50 * MS);
    assert_eq!(debounce_window_for(BTN_LEFT), 50 * MS);
    assert_eq!(debounce_window_for(BTN_RIGHT), 50 * MS);
    assert_eq!(debounce_window_for(BTN_MIDDLE), 50 * MS);
    assert_eq!(debounce_window_for(BTN_SIDE), 350 * MS);
    assert_eq!(debounce_window_for(BTN_EXTRA), 300 * MS);
    assert_eq!(window_override(BTN_LEFT), None);
    assert_eq!(window_override(BTN_SIDE), Some(350 * MS));
}

#[test]
fn fresh_table_holds_five_released_buttons() {
    let table = initialize_button_states();
    for (code, w) in [
        (BTN_LEFT, 50 * MS),
        (BTN_RIGHT, 50 * MS),
        (BTN_MIDDLE, 50 * MS),
        (BTN_SIDE, 350 * MS),
        (BTN_EXTRA, 300 * MS),
    ] {
        let s = table.state_of(code).unwrap();
        assert!(!s.is_pressed);
        assert_eq!(s.last_accepted_time, None);
        assert_eq!(s.debounce_window, w);
    }
    assert_eq!(table.state_of(0x115), None);
    assert_eq!(slot_of(BTN_EXTRA), Some(4));
    assert_eq!(slot_of(0x10f), None);
}

#[test]
fn side_button_uses_its_own_window() {
    let mut table = initialize_button_states();
    assert_eq!(table.evaluate(BTN_SIDE, KEY_PRESS, 0), Verdict::Forward);
    assert_eq!(table.evaluate(BTN_SIDE, KEY_RELEASE, 10 * MS), Verdict::Forward);
    assert_eq!(table.evaluate(BTN_SIDE, KEY_PRESS, 300 * MS), Verdict::Suppress);
    assert_eq!(table.evaluate(BTN_SIDE, KEY_PRESS, 351 * MS), Verdict::Forward);
    // other buttons are untouched
    assert_eq!(table.state_of(BTN_LEFT).unwrap().last_accepted_time, None);
}
