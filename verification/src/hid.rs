//! HID usage codes, the byte layout of the input reports, and the HID service
//! that declares them.
//!
//! Everything here is a pure function: physical keys are mapped to keyboard
//! usages, modifier usages to their bit in the modifier byte, and the state of
//! the mouse and the keyboard is packed into fixed-width reports.

use std::collections::BTreeSet;
use vstd::prelude::*;

use crate::consts::{
    RID_KEYBD, RID_MOUSE, UUID_HID_CONTROL_POINT, UUID_HID_INFO, UUID_HID_PROTOCOL_MODE,
    UUID_HID_REPORT, UUID_HID_REPORT_MAP, UUID_HID_SERVICE,
};
use crate::gatt::{
    bluetooth_uuid, list_of_one, list_of_two, short_uuid, AttributePermission, Characteristic,
    CharacteristicModel, CharacteristicProperty, Service, ServiceModel,
};

verus! {

/// A physical key, named by its position on a US keyboard.
#[derive(Clone, Copy, Debug, PartialEq, Eq, Structural)]
pub enum KeyCode {
    Backquote,
    Backslash,
    BracketLeft,
    BracketRight,
    Comma,
    Digit0,
    Digit1,
    Digit2,
    Digit3,
    Digit4,
    Digit5,
    Digit6,
    Digit7,
    Digit8,
    Digit9,
    Equal,
    IntlBackslash,
    IntlRo,
    IntlYen,
    KeyA,
    KeyB,
    KeyC,
    KeyD,
    KeyE,
    KeyF,
    KeyG,
    KeyH,
    KeyI,
    KeyJ,
    KeyK,
    KeyL,
    KeyM,
    KeyN,
    KeyO,
    KeyP,
    KeyQ,
    KeyR,
    KeyS,
    KeyT,
    KeyU,
    KeyV,
    KeyW,
    KeyX,
    KeyY,
    KeyZ,
    Minus,
    Period,
    Quote,
    Semicolon,
    Slash,
    AltLeft,
    AltRight,
    Backspace,
    CapsLock,
    ContextMenu,
    ControlLeft,
    ControlRight,
    Enter,
    SuperLeft,
    SuperRight,
    ShiftLeft,
    ShiftRight,
    Space,
    Tab,
    Convert,
    KanaMode,
    Lang1,
    Lang2,
    Lang3,
    Lang4,
    Lang5,
    NonConvert,
    Delete,
    End,
    Help,
    Home,
    Insert,
    PageDown,
    PageUp,
    ArrowDown,
    ArrowLeft,
    ArrowRight,
    ArrowUp,
    NumLock,
    Numpad0,
    Numpad1,
    Numpad2,
    Numpad3,
    Numpad4,
    Numpad5,
    Numpad6,
    Numpad7,
    Numpad8,
    Numpad9,
    NumpadAdd,
    NumpadBackspace,
    NumpadClear,
    NumpadClearEntry,
    NumpadComma,
    NumpadDecimal,
    NumpadDivide,
    NumpadEnter,
    NumpadEqual,
    NumpadHash,
    NumpadMemoryAdd,
    NumpadMemoryClear,
    NumpadMemoryRecall,
    NumpadMemoryStore,
    NumpadMemorySubtract,
    NumpadMultiply,
    NumpadParenLeft,
    NumpadParenRight,
    NumpadStar,
    NumpadSubtract,
    Escape,
    Fn,
    FnLock,
    PrintScreen,
    ScrollLock,
    Pause,
    BrowserBack,
    BrowserFavorites,
    BrowserForward,
    BrowserHome,
    BrowserRefresh,
    BrowserSearch,
    BrowserStop,
    Eject,
    LaunchApp1,
    LaunchApp2,
    LaunchMail,
    MediaPlayPause,
    MediaSelect,
    MediaStop,
    MediaTrackNext,
    MediaTrackPrevious,
    Power,
    Sleep,
    AudioVolumeDown,
    AudioVolumeMute,
    AudioVolumeUp,
    WakeUp,
    Meta,
    Hyper,
    Turbo,
    Abort,
    Resume,
    Suspend,
    Again,
    Copy,
    Cut,
    Find,
    Open,
    Paste,
    Props,
    Select,
    Undo,
    Hiragana,
    Katakana,
    F1,
    F2,
    F3,
    F4,
    F5,
    F6,
    F7,
    F8,
    F9,
    F10,
    F11,
    F12,
    F13,
    F14,
    F15,
    F16,
    F17,
    F18,
    F19,
    F20,
    F21,
    F22,
    F23,
    F24,
    F25,
    F26,
    F27,
    F28,
    F29,
    F30,
    F31,
    F32,
    F33,
    F34,
    F35,
}

/// The keyboard usage that a physical key reports, if the device knows the key.
pub open spec fn key_usage(code: KeyCode) -> Option<u8> {
    match code {
        KeyCode::KeyA => Some(0x04u8),
        KeyCode::KeyB => Some(0x05u8),
        KeyCode::KeyC => Some(0x06u8),
        KeyCode::KeyD => Some(0x07u8),
        KeyCode::KeyE => Some(0x08u8),
        KeyCode::KeyF => Some(0x09u8),
        KeyCode::KeyG => Some(0x0Au8),
        KeyCode::KeyH => Some(0x0Bu8),
        KeyCode::KeyI => Some(0x0Cu8),
        KeyCode::KeyJ => Some(0x0Du8),
        KeyCode::KeyK => Some(0x0Eu8),
        KeyCode::KeyL => Some(0x0Fu8),
        KeyCode::KeyM => Some(0x10u8),
        KeyCode::KeyN => Some(0x11u8),
        KeyCode::KeyO => Some(0x12u8),
        KeyCode::KeyP => Some(0x13u8),
        KeyCode::KeyQ => Some(0x14u8),
        KeyCode::KeyR => Some(0x15u8),
        KeyCode::KeyS => Some(0x16u8),
        KeyCode::KeyT => Some(0x17u8),
        KeyCode::KeyU => Some(0x18u8),
        KeyCode::KeyV => Some(0x19u8),
        KeyCode::KeyW => Some(0x1Au8),
        KeyCode::KeyX => Some(0x1Bu8),
        KeyCode::KeyY => Some(0x1Cu8),
        KeyCode::KeyZ => Some(0x1Du8),
        KeyCode::Digit1 => Some(0x1Eu8),
        KeyCode::Digit2 => Some(0x1Fu8),
        KeyCode::Digit3 => Some(0x20u8),
        KeyCode::Digit4 => Some(0x21u8),
        KeyCode::Digit5 => Some(0x22u8),
        KeyCode::Digit6 => Some(0x23u8),
        KeyCode::Digit7 => Some(0x24u8),
        KeyCode::Digit8 => Some(0x25u8),
        KeyCode::Digit9 => Some(0x26u8),
        KeyCode::Digit0 => Some(0x27u8),
        KeyCode::Enter => Some(0x28u8),
        KeyCode::Escape => Some(0x29u8),
        KeyCode::Backspace => Some(0x2Au8),
        KeyCode::Tab => Some(0x2Bu8),
        KeyCode::Space => Some(0x2Cu8),
        KeyCode::Minus => Some(0x2Du8),
        KeyCode::Equal => Some(0x2Eu8),
        KeyCode::BracketLeft => Some(0x2Fu8),
        KeyCode::BracketRight => Some(0x30u8),
        KeyCode::Backslash => Some(0x31u8),
        KeyCode::IntlBackslash => Some(0x32u8),
        KeyCode::Semicolon => Some(0x33u8),
        KeyCode::Quote => Some(0x34u8),
        KeyCode::Backquote => Some(0x35u8),
        KeyCode::Comma => Some(0x36u8),
        KeyCode::Period => Some(0x37u8),
        KeyCode::Slash => Some(0x38u8),
        KeyCode::CapsLock => Some(0x39u8),
        KeyCode::F1 => Some(0x3Au8),
        KeyCode::F2 => Some(0x3Bu8),
        KeyCode::F3 => Some(0x3Cu8),
        KeyCode::F4 => Some(0x3Du8),
        KeyCode::F5 => Some(0x3Eu8),
        KeyCode::F6 => Some(0x3Fu8),
        KeyCode::F7 => Some(0x40u8),
        KeyCode::F8 => Some(0x41u8),
        KeyCode::F9 => Some(0x42u8),
        KeyCode::F10 => Some(0x43u8),
        KeyCode::F11 => Some(0x44u8),
        KeyCode::F12 => Some(0x45u8),
        KeyCode::PrintScreen => Some(0x46u8),
        KeyCode::ScrollLock => Some(0x47u8),
        KeyCode::Pause => Some(0x48u8),
        KeyCode::Insert => Some(0x49u8),
        KeyCode::Home => Some(0x4Au8),
        KeyCode::PageUp => Some(0x4Bu8),
        KeyCode::Delete => Some(0x4Cu8),
        KeyCode::End => Some(0x4Du8),
        KeyCode::PageDown => Some(0x4Eu8),
        KeyCode::ArrowRight => Some(0x4Fu8),
        KeyCode::ArrowLeft => Some(0x50u8),
        KeyCode::ArrowDown => Some(0x51u8),
        KeyCode::ArrowUp => Some(0x52u8),
        KeyCode::NumLock => Some(0x53u8),
        KeyCode::NumpadDivide => Some(0x54u8),
        KeyCode::NumpadMultiply => Some(0x55u8),
        KeyCode::NumpadSubtract => Some(0x56u8),
        KeyCode::NumpadAdd => Some(0x57u8),
        KeyCode::NumpadEnter => Some(0x58u8),
        KeyCode::Numpad1 => Some(0x59u8),
        KeyCode::Numpad2 => Some(0x5Au8),
        KeyCode::Numpad3 => Some(0x5Bu8),
        KeyCode::Numpad4 => Some(0x5Cu8),
        KeyCode::Numpad5 => Some(0x5Du8),
        KeyCode::Numpad6 => Some(0x5Eu8),
        KeyCode::Numpad7 => Some(0x5Fu8),
        KeyCode::Numpad8 => Some(0x60u8),
        KeyCode::Numpad9 => Some(0x61u8),
        KeyCode::Numpad0 => Some(0x62u8),
        KeyCode::NumpadDecimal => Some(0x63u8),
        KeyCode::ControlLeft => Some(0xE0u8),
        KeyCode::ShiftLeft => Some(0xE1u8),
        KeyCode::AltLeft => Some(0xE2u8),
        KeyCode::SuperLeft => Some(0xE3u8),
        KeyCode::ControlRight => Some(0xE4u8),
        KeyCode::ShiftRight => Some(0xE5u8),
        KeyCode::AltRight => Some(0xE6u8),
        KeyCode::SuperRight => Some(0xE7u8),
        _ => None,
    }
}

/// The usages of the key table: those of the ordinary keys that some physical
/// key reports. Ordinary usages outside this range exist; no key here reports
/// them.
pub open spec fn is_key_table_usage(usage: u8) -> bool {
    0x04 <= usage <= 0x63
}

/// The eight modifier usages, left control to right GUI.
pub open spec fn is_modifier_usage(usage: u8) -> bool {
    0xE0 <= usage <= 0xE7
}

/// Maps a physical key to its keyboard usage. Keys outside the device's
/// vocabulary give `None`, and the caller drops them.
pub fn keycode_to_hid(code: KeyCode) -> (usage: Option<u8>)
    ensures
        usage == key_usage(code),
        usage matches Some(u) ==> is_key_table_usage(u) || is_modifier_usage(u),
{
    match code {
        KeyCode::KeyA => Some(0x04),
        KeyCode::KeyB => Some(0x05),
        KeyCode::KeyC => Some(0x06),
        KeyCode::KeyD => Some(0x07),
        KeyCode::KeyE => Some(0x08),
        KeyCode::KeyF => Some(0x09),
        KeyCode::KeyG => Some(0x0A),
        KeyCode::KeyH => Some(0x0B),
        KeyCode::KeyI => Some(0x0C),
        KeyCode::KeyJ => Some(0x0D),
        KeyCode::KeyK => Some(0x0E),
        KeyCode::KeyL => Some(0x0F),
        KeyCode::KeyM => Some(0x10),
        KeyCode::KeyN => Some(0x11),
        KeyCode::KeyO => Some(0x12),
        KeyCode::KeyP => Some(0x13),
        KeyCode::KeyQ => Some(0x14),
        KeyCode::KeyR => Some(0x15),
        KeyCode::KeyS => Some(0x16),
        KeyCode::KeyT => Some(0x17),
        KeyCode::KeyU => Some(0x18),
        KeyCode::KeyV => Some(0x19),
        KeyCode::KeyW => Some(0x1A),
        KeyCode::KeyX => Some(0x1B),
        KeyCode::KeyY => Some(0x1C),
        KeyCode::KeyZ => Some(0x1D),
        KeyCode::Digit1 => Some(0x1E),
        KeyCode::Digit2 => Some(0x1F),
        KeyCode::Digit3 => Some(0x20),
        KeyCode::Digit4 => Some(0x21),
        KeyCode::Digit5 => Some(0x22),
        KeyCode::Digit6 => Some(0x23),
        KeyCode::Digit7 => Some(0x24),
        KeyCode::Digit8 => Some(0x25),
        KeyCode::Digit9 => Some(0x26),
        KeyCode::Digit0 => Some(0x27),
        KeyCode::Enter => Some(0x28),
        KeyCode::Escape => Some(0x29),
        KeyCode::Backspace => Some(0x2A),
        KeyCode::Tab => Some(0x2B),
        KeyCode::Space => Some(0x2C),
        KeyCode::Minus => Some(0x2D),
        KeyCode::Equal => Some(0x2E),
        KeyCode::BracketLeft => Some(0x2F),
        KeyCode::BracketRight => Some(0x30),
        KeyCode::Backslash => Some(0x31),
        KeyCode::IntlBackslash => Some(0x32),
        KeyCode::Semicolon => Some(0x33),
        KeyCode::Quote => Some(0x34),
        KeyCode::Backquote => Some(0x35),
        KeyCode::Comma => Some(0x36),
        KeyCode::Period => Some(0x37),
        KeyCode::Slash => Some(0x38),
        KeyCode::CapsLock => Some(0x39),
        KeyCode::F1 => Some(0x3A),
        KeyCode::F2 => Some(0x3B),
        KeyCode::F3 => Some(0x3C),
        KeyCode::F4 => Some(0x3D),
        KeyCode::F5 => Some(0x3E),
        KeyCode::F6 => Some(0x3F),
        KeyCode::F7 => Some(0x40),
        KeyCode::F8 => Some(0x41),
        KeyCode::F9 => Some(0x42),
        KeyCode::F10 => Some(0x43),
        KeyCode::F11 => Some(0x44),
        KeyCode::F12 => Some(0x45),
        KeyCode::PrintScreen => Some(0x46),
        KeyCode::ScrollLock => Some(0x47),
        KeyCode::Pause => Some(0x48),
        KeyCode::Insert => Some(0x49),
        KeyCode::Home => Some(0x4A),
        KeyCode::PageUp => Some(0x4B),
        KeyCode::Delete => Some(0x4C),
        KeyCode::End => Some(0x4D),
        KeyCode::PageDown => Some(0x4E),
        KeyCode::ArrowRight => Some(0x4F),
        KeyCode::ArrowLeft => Some(0x50),
        KeyCode::ArrowDown => Some(0x51),
        KeyCode::ArrowUp => Some(0x52),
        KeyCode::NumLock => Some(0x53),
        KeyCode::NumpadDivide => Some(0x54),
        KeyCode::NumpadMultiply => Some(0x55),
        KeyCode::NumpadSubtract => Some(0x56),
        KeyCode::NumpadAdd => Some(0x57),
        KeyCode::NumpadEnter => Some(0x58),
        KeyCode::Numpad1 => Some(0x59),
        KeyCode::Numpad2 => Some(0x5A),
        KeyCode::Numpad3 => Some(0x5B),
        KeyCode::Numpad4 => Some(0x5C),
        KeyCode::Numpad5 => Some(0x5D),
        KeyCode::Numpad6 => Some(0x5E),
        KeyCode::Numpad7 => Some(0x5F),
        KeyCode::Numpad8 => Some(0x60),
        KeyCode::Numpad9 => Some(0x61),
        KeyCode::Numpad0 => Some(0x62),
        KeyCode::NumpadDecimal => Some(0x63),
        KeyCode::ControlLeft => Some(0xE0),
        KeyCode::ShiftLeft => Some(0xE1),
        KeyCode::AltLeft => Some(0xE2),
        KeyCode::SuperLeft => Some(0xE3),
        KeyCode::ControlRight => Some(0xE4),
        KeyCode::ShiftRight => Some(0xE5),
        KeyCode::AltRight => Some(0xE6),
        KeyCode::SuperRight => Some(0xE7),
        _ => None,
    }
}

/// No two physical keys report the same usage.
pub proof fn lemma_key_usage_injective(a: KeyCode, b: KeyCode)
    requires
        key_usage(a) is Some,
        key_usage(a) == key_usage(b),
    ensures
        a == b,
{
}

/// The mask of the bit that a modifier usage owns in the modifier byte. The
/// bits follow the order left control, left shift, left alt, left GUI, then the
/// four right-hand keys; other usages own none.
pub open spec fn modifier_bit(usage: u8) -> Option<u8> {
    if usage == 0xE0 {
        Some(0x01u8)
    } else if usage == 0xE1 {
        Some(0x02u8)
    } else if usage == 0xE2 {
        Some(0x04u8)
    } else if usage == 0xE3 {
        Some(0x08u8)
    } else if usage == 0xE4 {
        Some(0x10u8)
    } else if usage == 0xE5 {
        Some(0x20u8)
    } else if usage == 0xE6 {
        Some(0x40u8)
    } else if usage == 0xE7 {
        Some(0x80u8)
    } else {
        None
    }
}

/// The place of a modifier usage in the ordered list left control, left shift,
/// left alt, left GUI, right control, right shift, right alt, right GUI,
/// counted from zero. Other usages have none.
pub open spec fn modifier_index(usage: u8) -> Option<u8> {
    if is_modifier_usage(usage) {
        Some((usage - 0xE0) as u8)
    } else {
        None
    }
}

/// Returns the bit index, 0 to 7, of `usage` in the modifier byte if and only
/// if it is one of the eight modifier usages.
pub fn keyboard_usage_to_modifier(usage: u8) -> (index: Option<u8>)
    ensures
        index == modifier_index(usage),
        index is Some <==> is_modifier_usage(usage),
        is_modifier_usage(usage) ==> index == Some((usage - 0xE0) as u8),
        index matches Some(i) ==> i < 8,
{
    if 0xE0 <= usage && usage <= 0xE7 {
        Some(usage - 0xE0)
    } else {
        None
    }
}

/// A modifier's bit in the modifier byte is the one at its index: the mask is
/// one shifted left by the index.
pub proof fn lemma_modifier_bit_is_shift(usage: u8)
    requires
        is_modifier_usage(usage),
    ensures
        modifier_index(usage) == Some((usage - 0xE0) as u8),
        modifier_bit(usage) == Some(1u8 << ((usage - 0xE0) as u8)),
{
    assert(1u8 << 0u8 == 0x01u8) by (bit_vector);
    assert(1u8 << 1u8 == 0x02u8) by (bit_vector);
    assert(1u8 << 2u8 == 0x04u8) by (bit_vector);
    assert(1u8 << 3u8 == 0x08u8) by (bit_vector);
    assert(1u8 << 4u8 == 0x10u8) by (bit_vector);
    assert(1u8 << 5u8 == 0x20u8) by (bit_vector);
    assert(1u8 << 6u8 == 0x40u8) by (bit_vector);
    assert(1u8 << 7u8 == 0x80u8) by (bit_vector);
}

/// A usage has a bit in the modifier byte exactly when it has an index.
pub proof fn lemma_modifier_bit_iff_index(usage: u8)
    ensures
        modifier_bit(usage) is Some <==> modifier_index(usage) is Some,
        modifier_bit(usage) is Some <==> is_modifier_usage(usage),
{
}

/// The bit of a modifier usage in the modifier byte: one shifted left by the
/// index of the usage.
pub(crate) fn modifier_mask(usage: u8) -> (bit: Option<u8>)
    ensures
        bit == modifier_bit(usage),
{
    match keyboard_usage_to_modifier(usage) {
        Some(index) => {
            proof {
                lemma_modifier_bit_is_shift(usage);
            }
            Some(1u8 << index)
        },
        None => None,
    }
}

/// The byte that carries a signed value in two's complement.
pub open spec fn signed_byte(v: i8) -> u8 {
    if v < 0 {
        (v + 256) as u8
    } else {
        v as u8
    }
}

/// The signed value that a two's-complement byte carries.
pub open spec fn byte_as_signed(b: u8) -> i8 {
    if b >= 128 {
        (b - 256) as i8
    } else {
        b as i8
    }
}

/// Reading back an encoded byte gives the value that was encoded.
pub proof fn lemma_signed_byte_round_trip(v: i8)
    ensures
        byte_as_signed(signed_byte(v)) == v,
{
}

/// The bytes of a mouse report: report ID, buttons, then the three relative
/// axes in two's complement.
pub open spec fn mouse_report(buttons: u8, dx: i8, dy: i8, wheel: i8) -> Seq<u8> {
    seq![RID_MOUSE, buttons, signed_byte(dx), signed_byte(dy), signed_byte(wheel)]
}

fn encode_signed(v: i8) -> (b: u8)
    ensures
        b == signed_byte(v),
{
    if v < 0 {
        (v as i16 + 256) as u8
    } else {
        v as u8
    }
}

/// Packs the mouse state into its five-byte report.
pub fn build_mouse_report(buttons: u8, dx: i8, dy: i8, wheel: i8) -> (report: [u8; 5])
    ensures
        report@ == mouse_report(buttons, dx, dy, wheel),
{
    let report = [RID_MOUSE, buttons, encode_signed(dx), encode_signed(dy), encode_signed(wheel)];
    assert(report@ =~= mouse_report(buttons, dx, dy, wheel));
    report
}

/// A mouse report has five bytes: the mouse report ID, the buttons as given,
/// and three bytes that read back as the signed motion.
pub proof fn lemma_mouse_report_layout(buttons: u8, dx: i8, dy: i8, wheel: i8)
    ensures
        mouse_report(buttons, dx, dy, wheel).len() == 5,
        mouse_report(buttons, dx, dy, wheel)[0] == 0x01,
        mouse_report(buttons, dx, dy, wheel)[1] == buttons,
        byte_as_signed(mouse_report(buttons, dx, dy, wheel)[2]) == dx,
        byte_as_signed(mouse_report(buttons, dx, dy, wheel)[3]) == dy,
        byte_as_signed(mouse_report(buttons, dx, dy, wheel)[4]) == wheel,
{
}

/// The members of `keys` that are below `bound`, smallest first.
pub open spec fn ascending_below(keys: Set<u8>, bound: nat) -> Seq<u8>
    decreases bound,
{
    if bound == 0 {
        Seq::empty()
    } else {
        let smaller = ascending_below(keys, (bound - 1) as nat);
        let top = (bound - 1) as u8;
        if bound <= 256 && keys.contains(top) {
            smaller.push(top)
        } else {
            smaller
        }
    }
}

/// The members of `keys` in ascending numeric order.
pub open spec fn ascending(keys: Set<u8>) -> Seq<u8> {
    ascending_below(keys, 256)
}

/// Whether each element of `s` is smaller than the one after it.
pub open spec fn strictly_increasing(s: Seq<u8>) -> bool {
    forall|i: int, j: int| 0 <= i < j < s.len() ==> s[i] < s[j]
}

/// The six key slots of a keyboard report: the smallest pressed usages in
/// ascending order, then zeros. Usage zero, if it is pressed, takes the first
/// slot and reads there like an empty one.
pub open spec fn key_slots(keys: Set<u8>) -> Seq<u8> {
    Seq::new(
        6,
        |i: int|
            if i < ascending(keys).len() {
                ascending(keys)[i]
            } else {
                0u8
            },
    )
}

/// The bytes of a keyboard report: report ID, modifier byte, a reserved zero,
/// then the six key slots.
pub open spec fn keyboard_report(mods: u8, keys: Set<u8>) -> Seq<u8> {
    seq![RID_KEYBD, mods, 0u8] + key_slots(keys)
}

/// `ascending_below` lists exactly the members below the bound, each once and
/// in increasing order.
pub proof fn lemma_ascending_below(keys: Set<u8>, bound: nat)
    requires
        bound <= 256,
    ensures
        strictly_increasing(ascending_below(keys, bound)),
        forall|u: u8|
            #![trigger ascending_below(keys, bound).contains(u)]
            #![trigger keys.contains(u)]
            ascending_below(keys, bound).contains(u) <==> (keys.contains(u) && u < bound),
        ascending_below(keys, bound).len() <= bound,
    decreases bound,
{
    if bound > 0 {
        let smaller = ascending_below(keys, (bound - 1) as nat);
        let top = (bound - 1) as u8;
        lemma_ascending_below(keys, (bound - 1) as nat);
        let all = ascending_below(keys, bound);
        if keys.contains(top) {
            assert(all == smaller.push(top));
            assert forall|i: int, j: int| 0 <= i < j < all.len() implies all[i] < all[j] by {
                assert(all[i] == smaller[i]);
                if j == smaller.len() {
                    assert(smaller.contains(smaller[i]));
                    assert(all[j] == top);
                } else {
                    assert(all[j] == smaller[j]);
                }
            }
            assert forall|u: u8| all.contains(u) <==> (keys.contains(u) && u < bound) by {
                if all.contains(u) {
                    let i = choose|i: int| 0 <= i < all.len() && all[i] == u;
                    if i < smaller.len() {
                        assert(smaller.contains(smaller[i]));
                    }
                }
                if keys.contains(u) && u < bound {
                    if u == top {
                        assert(all[smaller.len() as int] == u);
                    } else {
                        assert(smaller.contains(u));
                        let i = choose|i: int| 0 <= i < smaller.len() && smaller[i] == u;
                        assert(all[i] == u);
                    }
                }
            }
        } else {
            assert(all == smaller);
        }
    }
}

/// Raising the bound only appends: the shorter listing is a prefix of the
/// longer one.
pub proof fn lemma_ascending_below_prefix(keys: Set<u8>, low: nat, high: nat)
    requires
        low <= high,
    ensures
        ascending_below(keys, low).len() <= ascending_below(keys, high).len(),
        forall|i: int|
            0 <= i < ascending_below(keys, low).len() ==> ascending_below(keys, high)[i]
                == ascending_below(keys, low)[i],
    decreases high,
{
    if low < high {
        lemma_ascending_below_prefix(keys, low, (high - 1) as nat);
    }
}

/// The ascending listing holds exactly the members of the set, each once.
pub proof fn lemma_ascending(keys: Set<u8>)
    ensures
        strictly_increasing(ascending(keys)),
        forall|u: u8|
            #![trigger ascending(keys).contains(u)]
            #![trigger keys.contains(u)]
            ascending(keys).contains(u) <==> keys.contains(u),
        ascending(keys).len() <= 256,
{
    lemma_ascending_below(keys, 256);
}

/// Two strictly increasing sequences with the same elements are the same
/// sequence.
pub proof fn lemma_increasing_unique(a: Seq<u8>, b: Seq<u8>)
    requires
        strictly_increasing(a),
        strictly_increasing(b),
        forall|u: u8| #![trigger a.contains(u)] #![trigger b.contains(u)] a.contains(u) <==> b.contains(u),
    ensures
        a == b,
    decreases a.len(),
{
    if a.len() == 0 {
        if b.len() > 0 {
            assert(b.contains(b[0]));
        }
        assert(a =~= b);
    } else {
        let x = a.last();
        assert(a.contains(x));
        assert(b.contains(x));
        let y = b.last();
        assert(b.contains(y));
        assert(a.contains(y));
        let ix = choose|i: int| 0 <= i < b.len() && b[i] == x;
        let iy = choose|i: int| 0 <= i < a.len() && a[i] == y;
        assert(x == y);
        let a0 = a.drop_last();
        let b0 = b.drop_last();
        assert forall|u: u8| a0.contains(u) <==> b0.contains(u) by {
            if a0.contains(u) {
                let i = choose|i: int| 0 <= i < a0.len() && a0[i] == u;
                assert(a[i] == u);
                assert(a.contains(u));
                let j = choose|j: int| 0 <= j < b.len() && b[j] == u;
                assert(u < x);
                assert(b0[j] == u);
            }
            if b0.contains(u) {
                let j = choose|j: int| 0 <= j < b0.len() && b0[j] == u;
                assert(b[j] == u);
                assert(b.contains(u));
                let i = choose|i: int| 0 <= i < a.len() && a[i] == u;
                assert(u < y);
                assert(a0[i] == u);
            }
        }
        lemma_increasing_unique(a0, b0);
        assert(a =~= a0.push(x));
        assert(b =~= b0.push(y));
    }
}

/// Any strictly increasing listing of the members of a set is its ascending
/// listing, so the key slots of a report are fixed by the set alone.
pub proof fn lemma_ascending_is(keys: Set<u8>, listing: Seq<u8>)
    requires
        strictly_increasing(listing),
        forall|u: u8|
            #![trigger listing.contains(u)]
            #![trigger keys.contains(u)]
            listing.contains(u) <==> keys.contains(u),
    ensures
        ascending(keys) == listing,
{
    lemma_ascending(keys);
    lemma_increasing_unique(ascending(keys), listing);
}

/// A keyboard report has nine bytes: the keyboard report ID, the modifier
/// byte as given, a zero, and six key slots. The slots hold the pressed usages
/// in ascending order, the six smallest if there are more, and zeros after
/// the last one.
pub proof fn lemma_keyboard_report_layout(mods: u8, keys: Set<u8>)
    ensures
        keyboard_report(mods, keys).len() == 9,
        keyboard_report(mods, keys)[0] == 0x02,
        keyboard_report(mods, keys)[1] == mods,
        keyboard_report(mods, keys)[2] == 0x00,
        forall|i: int|
            0 <= i < 6 && i < ascending(keys).len() ==> #[trigger] keyboard_report(mods, keys)[3 + i]
                == ascending(keys)[i] && keys.contains(ascending(keys)[i]),
        forall|i: int|
            ascending(keys).len() <= i < 6 ==> #[trigger] keyboard_report(mods, keys)[3 + i] == 0,
        forall|i: int, j: int|
            0 <= i < j < 6 && j < ascending(keys).len() ==> #[trigger] keyboard_report(mods, keys)[3
                + i] < #[trigger] keyboard_report(mods, keys)[3 + j],
        forall|u: u8|
            keys.contains(u) && ascending(keys).len() <= 6 ==> exists|i: int|
                0 <= i < 6 && #[trigger] keyboard_report(mods, keys)[3 + i] == u,
{
    lemma_ascending(keys);
    let listing = ascending(keys);
    let report = keyboard_report(mods, keys);
    assert forall|i: int| 0 <= i < 6 && i < listing.len() implies #[trigger] report[3 + i]
        == listing[i] && keys.contains(listing[i]) by {
        assert(listing.contains(listing[i]));
    }
    assert forall|u: u8| keys.contains(u) && listing.len() <= 6 implies exists|i: int|
        0 <= i < 6 && #[trigger] report[3 + i] == u by {
        assert(listing.contains(u));
        let i = choose|i: int| 0 <= i < listing.len() && listing[i] == u;
        assert(report[3 + i] == u);
    }
}

/// Packs the keyboard state into its nine-byte report. Of more than six
/// pressed usages the six smallest are reported.
pub fn build_keyboard_report(mods: u8, pressed: &BTreeSet<u8>) -> (report: [u8; 9])
    ensures
        report@ == keyboard_report(mods, pressed@),
{
    broadcast use vstd::std_specs::btree::group_btree_axioms;

    let mut out = [RID_KEYBD, mods, 0x00, 0, 0, 0, 0, 0, 0];
    let mut filled: usize = 0;
    let mut next: u16 = 0;
    while next < 256 && filled < 6
        invariant
            next <= 256,
            filled <= 6,
            filled <= ascending_below(pressed@, next as nat).len(),
            filled < 6 ==> filled == ascending_below(pressed@, next as nat).len(),
            out@.len() == 9,
            out@[0] == RID_KEYBD,
            out@[1] == mods,
            out@[2] == 0,
            forall|j: int|
                3 <= j < 3 + filled ==> out@[j] == ascending_below(pressed@, next as nat)[j - 3],
            forall|j: int| 3 + filled <= j < 9 ==> out@[j] == 0,
        decreases 256 - next,
    {
        let usage = next as u8;
        if pressed.contains(&usage) {
            out[3 + filled] = usage;
            filled = filled + 1;
        }
        next = next + 1;
    }
    proof {
        lemma_ascending_below_prefix(pressed@, next as nat, 256);
        assert(out@ =~= keyboard_report(mods, pressed@));
    }
    out
}

/// The largest motion that one report can carry in either direction.
pub const AXIS_LIMIT: i8 = 127;

/// The value nearest to `v` that a report axis can carry.
pub open spec fn clamped_axis(v: int) -> i8 {
    if v < -AXIS_LIMIT {
        (-AXIS_LIMIT) as i8
    } else if v > AXIS_LIMIT {
        AXIS_LIMIT
    } else {
        v as i8
    }
}

/// Limits a motion to what one report can carry, -127 to 127.
pub fn clamp_axis(v: i32) -> (axis: i8)
    ensures
        axis == clamped_axis(v as int),
        -AXIS_LIMIT <= axis <= AXIS_LIMIT,
{
    if v < -127 {
        -127
    } else if v > 127 {
        127
    } else {
        v as i8
    }
}

/// The part of the report descriptor that declares the mouse: three buttons,
/// five bits of padding, and three signed relative axes of one byte each.
pub open spec fn mouse_descriptor() -> Seq<u8> {
    seq![
        0x05u8, 0x01, 0x09, 0x02, 0xA1, 0x01, 0x85, RID_MOUSE, 0x09, 0x01, 0xA1, 0x00, 0x05, 0x09,
        0x19, 0x01, 0x29, 0x03, 0x15, 0x00, 0x25, 0x01, 0x95, 0x03, 0x75, 0x01, 0x81, 0x02, 0x95,
        0x01, 0x75, 0x05, 0x81, 0x03, 0x05, 0x01, 0x09, 0x30, 0x09, 0x31, 0x09, 0x38, 0x15, 0x81,
        0x25, 0x7F, 0x75, 0x08, 0x95, 0x03, 0x81, 0x06, 0xC0, 0xC0,
    ]
}

/// The part of the report descriptor that declares the keyboard: a modifier
/// byte, a reserved byte, and an array of six key codes.
pub open spec fn keyboard_descriptor() -> Seq<u8> {
    seq![
        0x05u8, 0x01, 0x09, 0x06, 0xA1, 0x01, 0x85, RID_KEYBD, 0x05, 0x07, 0x19, 0xE0, 0x29, 0xE7,
        0x15, 0x00, 0x25, 0x01, 0x75, 0x01, 0x95, 0x08, 0x81, 0x02, 0x75, 0x08, 0x95, 0x01, 0x81,
        0x03, 0x15, 0x00, 0x25, 0x65, 0x19, 0x00, 0x29, 0x65, 0x75, 0x08, 0x95, 0x06, 0x81, 0x00,
        0xC0,
    ]
}

/// The HID report descriptor: the mouse collection, then the keyboard
/// collection.
pub open spec fn report_map() -> Seq<u8> {
    mouse_descriptor() + keyboard_descriptor()
}

/// The HID report descriptor, byte for byte as the report-map characteristic
/// serves it.
pub fn report_descriptor() -> (bytes: Vec<u8>)
    ensures
        bytes@ == report_map(),
{
    let bytes: Vec<u8> = vec![
        0x05, 0x01, 0x09, 0x02, 0xA1, 0x01, 0x85, RID_MOUSE, 0x09, 0x01, 0xA1, 0x00, 0x05, 0x09,
        0x19, 0x01, 0x29, 0x03, 0x15, 0x00, 0x25, 0x01, 0x95, 0x03, 0x75, 0x01, 0x81, 0x02, 0x95,
        0x01, 0x75, 0x05, 0x81, 0x03, 0x05, 0x01, 0x09, 0x30, 0x09, 0x31, 0x09, 0x38, 0x15, 0x81,
        0x25, 0x7F, 0x75, 0x08, 0x95, 0x03, 0x81, 0x06, 0xC0, 0xC0, 0x05, 0x01, 0x09, 0x06, 0xA1,
        0x01, 0x85, RID_KEYBD, 0x05, 0x07, 0x19, 0xE0, 0x29, 0xE7, 0x15, 0x00, 0x25, 0x01, 0x75,
        0x01, 0x95, 0x08, 0x81, 0x02, 0x75, 0x08, 0x95, 0x01, 0x81, 0x03, 0x15, 0x00, 0x25, 0x65,
        0x19, 0x00, 0x29, 0x65, 0x75, 0x08, 0x95, 0x06, 0x81, 0x00, 0xC0,
    ];
    assert(bytes@ =~= report_map());
    bytes
}

/// The HID information value: HID version 1.11, no country code, no flags.
pub open spec fn hid_information() -> Seq<u8> {
    seq![0x11u8, 0x01, 0x00, 0x00]
}

/// The protocol-mode value that selects report protocol.
pub open spec fn report_protocol_mode() -> Seq<u8> {
    seq![0x01u8]
}

/// The HID service: information, control point, protocol mode, report map, and
/// one input-report characteristic that carries both report IDs.
pub open spec fn hid_service() -> ServiceModel {
    ServiceModel {
        uuid: bluetooth_uuid(UUID_HID_SERVICE),
        primary: true,
        characteristics: seq![
            CharacteristicModel {
                uuid: bluetooth_uuid(UUID_HID_INFO),
                properties: seq![CharacteristicProperty::Read],
                permissions: seq![AttributePermission::Readable],
                value: Some(hid_information()),
            },
            CharacteristicModel {
                uuid: bluetooth_uuid(UUID_HID_CONTROL_POINT),
                properties: seq![CharacteristicProperty::Write],
                permissions: seq![AttributePermission::WriteEncryptionRequired],
                value: None,
            },
            CharacteristicModel {
                uuid: bluetooth_uuid(UUID_HID_PROTOCOL_MODE),
                properties: seq![CharacteristicProperty::Read, CharacteristicProperty::Write],
                permissions: seq![
                    AttributePermission::ReadEncryptionRequired,
                    AttributePermission::WriteEncryptionRequired,
                ],
                value: Some(report_protocol_mode()),
            },
            CharacteristicModel {
                uuid: bluetooth_uuid(UUID_HID_REPORT_MAP),
                properties: seq![CharacteristicProperty::Read],
                permissions: seq![AttributePermission::ReadEncryptionRequired],
                value: Some(report_map()),
            },
            CharacteristicModel {
                uuid: bluetooth_uuid(UUID_HID_REPORT),
                properties: seq![
                    CharacteristicProperty::Read,
                    CharacteristicProperty::NotifyEncryptionRequired,
                ],
                permissions: seq![AttributePermission::ReadEncryptionRequired],
                value: None,
            },
        ],
    }
}

/// Builds the HID service and returns it with the UUID of its input-report
/// characteristic, on which mouse and keyboard reports are notified.
pub fn build_hid_service() -> (built: (Service, u128))
    ensures
        built.0@ == hid_service(),
        built.1 == bluetooth_uuid(UUID_HID_REPORT),
{
    let input_uuid = short_uuid(UUID_HID_REPORT);
    let version: Vec<u8> = vec![0x11, 0x01, 0x00, 0x00];
    assert(version@ =~= hid_information());
    let info = Characteristic {
        uuid: short_uuid(UUID_HID_INFO),
        properties: list_of_one(CharacteristicProperty::Read),
        permissions: list_of_one(AttributePermission::Readable),
        value: Some(version),
    };
    let control_point = Characteristic {
        uuid: short_uuid(UUID_HID_CONTROL_POINT),
        properties: list_of_one(CharacteristicProperty::Write),
        permissions: list_of_one(AttributePermission::WriteEncryptionRequired),
        value: None,
    };
    let protocol_mode = Characteristic {
        uuid: short_uuid(UUID_HID_PROTOCOL_MODE),
        properties: list_of_two(CharacteristicProperty::Read, CharacteristicProperty::Write),
        permissions: list_of_two(
            AttributePermission::ReadEncryptionRequired,
            AttributePermission::WriteEncryptionRequired,
        ),
        value: Some(list_of_one(0x01)),
    };
    let map = Characteristic {
        uuid: short_uuid(UUID_HID_REPORT_MAP),
        properties: list_of_one(CharacteristicProperty::Read),
        permissions: list_of_one(AttributePermission::ReadEncryptionRequired),
        value: Some(report_descriptor()),
    };
    let input = Characteristic {
        uuid: input_uuid,
        properties: list_of_two(
            CharacteristicProperty::Read,
            CharacteristicProperty::NotifyEncryptionRequired,
        ),
        permissions: list_of_one(AttributePermission::ReadEncryptionRequired),
        value: None,
    };
    let service = Service {
        uuid: short_uuid(UUID_HID_SERVICE),
        primary: true,
        characteristics: vec![info, control_point, protocol_mode, map, input],
    };
    assert(service@.characteristics =~= hid_service().characteristics);
    (service, input_uuid)
}

} // verus!
