use mouse_debounce::buttons::{initialize_button_states, BTN_LEFT, BTN_SIDE};
use mouse_debounce::engine::{Verdict, KEY_PRESS, KEY_RELEASE};
use mouse_debounce::translator::{filter_batch, handle_event, InputRecord, EV_KEY, EV_REL, EV_SYN};

const MS: u64 = 1_000_000;

#[test]
fn axis_and_sync_events_pass_during_bounce() {
    let mut table = initialize_button_states();
    let press = InputRecord::new(EV_KEY, BTN_LEFT, KEY_PRESS);
    assert_eq!(handle_event(&mut table, &press, 0), Verdict::Forward);
    assert_eq!(handle_event(&mut table, &press, 1 * MS), Verdict::Suppress);
    let before = table.state_of(BTN_LEFT);
    let moves = InputRecord::new(EV_REL, 0, -7);
    let sync = InputRecord::new(EV_SYN, 0, 0);
    assert_eq!(handle_event(&mut table, &moves, 2 * MS), Verdict::Forward);
    assert_eq!(handle_event(&mut table, &sync, 2 * MS), Verdict::Forward);
    assert_eq!(table.state_of(BTN_LEFT), before);
}

#[test]
fn untracked_key_passes() {
    let mut table = initialize_button_states();
    let key_a = InputRecord::new(EV_KEY, 30, KEY_RELEASE);
    assert_eq!(handle_event(&mut table, &key_a, 0), Verdict::Forward);
    // a relative axis whose code equals a button code is not a button
    let rel = InputRecord::new(EV_REL, BTN_LEFT, KEY_RELEASE);
    assert_eq!(handle_event(&mut table, &rel, 0), Verdict::Forward);
}

#[test]
fn batch_drops_only_bounces() {
    let mut table = initialize_button_states();
    let batch = vec![
        (InputRecord::new(EV_KEY, BTN_SIDE, KEY_PRESS), 0),
        (InputRecord::new(EV_SYN, 0, 0), 0),
        (InputRecord::new(EV_KEY, BTN_SIDE, KEY_RELEASE), 5 * MS),
        (InputRecord::new(EV_KEY, BTN_SIDE, KEY_PRESS), 10 * MS),
        (InputRecord::new(EV_REL, 1, 3), 11 * MS),
        (InputRecord::new(EV_KEY, BTN_SIDE, KEY_RELEASE), 12 * MS),
        (InputRecord::new(EV_SYN, 0, 0), 12 * MS),
    ];
    let out = filter_batch(&mut table, &batch);
    assert_eq!(
        out,
        vec![
            InputRecord::new(EV_KEY, BTN_SIDE, KEY_PRESS),
            InputRecord::new(EV_SYN, 0, 0),
            InputRecord::new(EV_KEY, BTN_SIDE, KEY_RELEASE),
            InputRecord::new(EV_REL, 1, 3),
            InputRecord::new(EV_SYN, 0, 0),
        ]
    );
    assert!(!table.state_of(BTN_SIDE).unwrap().is_pressed);
}

#[test]
fn empty_batch_emits_nothing() {
    let mut table = initialize_button_states();
    let out = filter_batch(&mut table, &Vec::new());
    assert!(out.is_empty());
}
