use bluper::hid::keyboard_usage_to_modifier;
use bluper::tracker::{InputState, MouseButton};

#[test]
fn new_tracker_is_empty() {
    let state = InputState::new();
    assert_eq!(state.modifiers(), 0);
    assert_eq!(state.buttons(), 0);
    assert_eq!(state.battery(), 0);
    assert_eq!(state.pressed(), Vec::<u8>::new());
    assert_eq!(state.snapshot_keyboard_report(), [0x02, 0, 0, 0, 0, 0, 0, 0, 0]);
}

#[test]
fn press_shift_release_gives_three_reports() {
    let mut state = InputState::new();
    state.apply_key_transition(0x04, true);
    assert_eq!(state.snapshot_keyboard_report(), [0x02, 0, 0, 0x04, 0, 0, 0, 0, 0]);
    state.apply_key_transition(0xE1, true);
    assert_eq!(state.snapshot_keyboard_report(), [0x02, 0x02, 0, 0x04, 0, 0, 0, 0, 0]);
    state.apply_key_transition(0x04, false);
    assert_eq!(state.snapshot_keyboard_report(), [0x02, 0x02, 0, 0, 0, 0, 0, 0, 0]);
}

#[test]
fn seventh_key_evicts_the_first() {
    let mut state = InputState::new();
    for usage in 0x04u8..=0x0A {
        state.apply_key_transition(usage, true);
        assert!(state.pressed().len() <= 6);
    }
    assert_eq!(state.pressed(), vec![0x05, 0x06, 0x07, 0x08, 0x09, 0x0A]);
    assert_eq!(state.snapshot_keyboard_report(), [0x02, 0, 0, 0x05, 0x06, 0x07, 0x08, 0x09, 0x0A]);
}

#[test]
fn eviction_takes_the_oldest_not_the_lowest() {
    let mut state = InputState::new();
    for usage in [0x20u8, 0x04, 0x05, 0x06, 0x07, 0x08] {
        state.apply_key_transition(usage, true);
    }
    state.apply_key_transition(0x30, true);
    assert_eq!(state.pressed(), vec![0x04, 0x05, 0x06, 0x07, 0x08, 0x30]);
    assert_eq!(state.snapshot_keyboard_report(), [0x02, 0, 0, 0x04, 0x05, 0x06, 0x07, 0x08, 0x30]);
}

#[test]
fn key_transitions_are_idempotent() {
    let mut state = InputState::new();
    state.apply_key_transition(0x04, true);
    state.apply_key_transition(0x05, true);
    state.apply_key_transition(0x04, true);
    assert_eq!(state.pressed(), vec![0x04, 0x05]);
    state.apply_key_transition(0x04, false);
    state.apply_key_transition(0x04, false);
    assert_eq!(state.pressed(), vec![0x05]);
    state.apply_key_transition(0xE0, true);
    state.apply_key_transition(0xE0, true);
    assert_eq!(state.modifiers(), 0x01);
    state.apply_key_transition(0xE0, false);
    state.apply_key_transition(0xE0, false);
    assert_eq!(state.modifiers(), 0x00);
}

#[test]
fn releasing_a_key_that_is_not_held_changes_nothing() {
    let mut state = InputState::new();
    state.apply_key_transition(0x04, true);
    state.apply_key_transition(0x09, false);
    assert_eq!(state.pressed(), vec![0x04]);
    assert_eq!(state.modifiers(), 0);
}

#[test]
fn modifiers_and_keys_do_not_mix() {
    let mut state = InputState::new();
    for usage in 0xE0u8..=0xE7 {
        state.apply_key_transition(usage, true);
    }
    assert_eq!(state.modifiers(), 0xFF);
    assert_eq!(state.pressed(), Vec::<u8>::new());
    state.apply_key_transition(0x04, true);
    state.apply_key_transition(0xDF, true);
    state.apply_key_transition(0xE8, true);
    assert_eq!(state.modifiers(), 0xFF);
    assert_eq!(state.pressed(), vec![0x04, 0xDF, 0xE8]);
    state.apply_key_transition(0xE5, false);
    assert_eq!(state.modifiers(), 0xDF);
    assert_eq!(state.pressed(), vec![0x04, 0xDF, 0xE8]);
}

#[test]
fn mouse_buttons_set_and_clear_their_bits() {
    let mut state = InputState::new();
    state.apply_mouse_button_transition(MouseButton::Left, true);
    assert_eq!(state.buttons(), 0b001);
    state.apply_mouse_button_transition(MouseButton::Middle, true);
    assert_eq!(state.buttons(), 0b011);
    state.apply_mouse_button_transition(MouseButton::Right, true);
    assert_eq!(state.buttons(), 0b111);
    state.apply_mouse_button_transition(MouseButton::Left, false);
    assert_eq!(state.buttons(), 0b110);
    state.apply_mouse_button_transition(MouseButton::Left, false);
    assert_eq!(state.buttons(), 0b110);
    assert_eq!(state.snapshot_mouse_report(-10, 5, 1), [0x01, 0b110, 246, 5, 1]);
}

#[test]
fn unknown_mouse_buttons_are_ignored() {
    let mut state = InputState::new();
    state.apply_mouse_button_transition(MouseButton::Back, true);
    state.apply_mouse_button_transition(MouseButton::Forward, true);
    state.apply_mouse_button_transition(MouseButton::Other(7), true);
    assert_eq!(state.buttons(), 0);
}

#[test]
fn battery_reading_reports_change() {
    let mut state = InputState::new();
    assert!(!state.apply_battery_reading(0));
    assert!(state.apply_battery_reading(95));
    assert!(!state.apply_battery_reading(95));
    assert!(state.apply_battery_reading(100));
    assert!(state.apply_battery_reading(40));
    assert_eq!(state.battery(), 40);
}

#[test]
fn modifier_mask_is_one_shifted_by_the_index() {
    for usage in 0xE0u8..=0xE7 {
        let index = keyboard_usage_to_modifier(usage).unwrap();
        let mut state = InputState::new();
        state.apply_key_transition(usage, true);
        assert_eq!(state.modifiers(), 1u8 << index);
        assert_eq!(state.snapshot_keyboard_report()[1], 1u8 << index);
        state.apply_key_transition(usage, false);
        assert_eq!(state.modifiers(), 0);
    }
}
