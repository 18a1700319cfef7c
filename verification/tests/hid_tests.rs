use std::collections::BTreeSet;

use bluper::hid::{
    build_keyboard_report, build_mouse_report, clamp_axis, keyboard_usage_to_modifier,
    keycode_to_hid, KeyCode,
};

#[test]
fn keyboard_report_length_and_padding() {
    let mut pressed = BTreeSet::new();
    // Push 7 keys; only first 6 should be included
    for k in [0x04u8, 0x05, 0x06, 0x07, 0x08, 0x09, 0x0A] {
        pressed.insert(k);
    }
    let mods = 0b0001_0010; // example mask
    let pkt = build_keyboard_report(mods, &pressed);
    assert_eq!(pkt.len(), 9);
    assert_eq!(pkt[0], 0x02); // RID keyboard
    assert_eq!(pkt[1], mods);
    assert_eq!(pkt[2], 0x00); // reserved
    // check first 6 keycodes
    assert_eq!(&pkt[3..9], &[0x04, 0x05, 0x06, 0x07, 0x08, 0x09]);
}

#[test]
fn mouse_report_layout() {
    let pkt = build_mouse_report(0b0000_0111, -10, 5, 1);
    assert_eq!(pkt, [0x01, 0b0000_0111, 246, 5, 1]); // 246 = -10u8
}

#[test]
fn keycode_mapping_basic() {
    assert_eq!(keycode_to_hid(KeyCode::KeyA), Some(0x04));
    assert_eq!(keycode_to_hid(KeyCode::Digit1), Some(0x1E));
    assert_eq!(keycode_to_hid(KeyCode::Enter), Some(0x28));
}

#[test]
fn keycode_mapping_covers_the_table_ends() {
    assert_eq!(keycode_to_hid(KeyCode::KeyZ), Some(0x1D));
    assert_eq!(keycode_to_hid(KeyCode::Digit0), Some(0x27));
    assert_eq!(keycode_to_hid(KeyCode::IntlBackslash), Some(0x32));
    assert_eq!(keycode_to_hid(KeyCode::F12), Some(0x45));
    assert_eq!(keycode_to_hid(KeyCode::ArrowUp), Some(0x52));
    assert_eq!(keycode_to_hid(KeyCode::NumpadDecimal), Some(0x63));
    assert_eq!(keycode_to_hid(KeyCode::ControlLeft), Some(0xE0));
    assert_eq!(keycode_to_hid(KeyCode::SuperRight), Some(0xE7));
}

#[test]
fn keycode_mapping_drops_unknown_keys() {
    assert_eq!(keycode_to_hid(KeyCode::F13), None);
    assert_eq!(keycode_to_hid(KeyCode::ContextMenu), None);
    assert_eq!(keycode_to_hid(KeyCode::MediaPlayPause), None);
    assert_eq!(keycode_to_hid(KeyCode::NumpadEqual), None);
    assert_eq!(keycode_to_hid(KeyCode::IntlYen), None);
}

#[test]
fn modifier_bits_follow_the_ordered_list() {
    assert_eq!(keyboard_usage_to_modifier(0xE0), Some(0)); // LCtrl
    assert_eq!(keyboard_usage_to_modifier(0xE1), Some(1)); // LShift
    assert_eq!(keyboard_usage_to_modifier(0xE2), Some(2)); // LAlt
    assert_eq!(keyboard_usage_to_modifier(0xE3), Some(3)); // LGUI
    assert_eq!(keyboard_usage_to_modifier(0xE4), Some(4)); // RCtrl
    assert_eq!(keyboard_usage_to_modifier(0xE5), Some(5)); // RShift
    assert_eq!(keyboard_usage_to_modifier(0xE6), Some(6)); // RAlt
    assert_eq!(keyboard_usage_to_modifier(0xE7), Some(7)); // RGUI
}

#[test]
fn modifier_bit_exists_for_modifiers_only() {
    for usage in 0u8..=255 {
        let expected = if (0xE0..=0xE7).contains(&usage) {
            Some(usage - 0xE0)
        } else {
            None
        };
        assert_eq!(keyboard_usage_to_modifier(usage), expected);
    }
    assert_eq!(keyboard_usage_to_modifier(0xDF), None);
    assert_eq!(keyboard_usage_to_modifier(0xE8), None);
}

#[test]
fn mouse_report_is_twos_complement_on_every_axis() {
    assert_eq!(build_mouse_report(0, 0, 0, 0), [0x01, 0, 0, 0, 0]);
    assert_eq!(build_mouse_report(1, 127, -127, -1), [0x01, 1, 127, 129, 255]);
    assert_eq!(build_mouse_report(4, -1, 1, -128), [0x01, 4, 255, 1, 128]);
    for v in i8::MIN..=i8::MAX {
        let pkt = build_mouse_report(0, v, v, v);
        assert_eq!(pkt[2] as i8, v);
        assert_eq!(pkt[3], v as u8);
        assert_eq!(pkt[4], v as u8);
    }
}

#[test]
fn keyboard_report_of_no_keys_is_zero_padded() {
    let pressed = BTreeSet::new();
    assert_eq!(build_keyboard_report(0, &pressed), [0x02, 0, 0, 0, 0, 0, 0, 0, 0]);
}

#[test]
fn keyboard_report_lists_keys_in_ascending_order() {
    let mut pressed = BTreeSet::new();
    for k in [0x1Du8, 0x04, 0x63, 0x10] {
        pressed.insert(k);
    }
    assert_eq!(
        build_keyboard_report(0x80, &pressed),
        [0x02, 0x80, 0, 0x04, 0x10, 0x1D, 0x63, 0, 0]
    );
}

#[test]
fn keyboard_report_reaches_the_highest_usage() {
    let mut pressed = BTreeSet::new();
    pressed.insert(0xFFu8);
    pressed.insert(0x00u8);
    assert_eq!(build_keyboard_report(0, &pressed), [0x02, 0, 0, 0x00, 0xFF, 0, 0, 0, 0]);
}

#[test]
fn clamp_axis_limits_to_the_report_range() {
    assert_eq!(clamp_axis(0), 0);
    assert_eq!(clamp_axis(127), 127);
    assert_eq!(clamp_axis(128), 127);
    assert_eq!(clamp_axis(-127), -127);
    assert_eq!(clamp_axis(-128), -127);
    assert_eq!(clamp_axis(i32::MAX), 127);
    assert_eq!(clamp_axis(i32::MIN), -127);
    assert_eq!(clamp_axis(-10), -10);
}
