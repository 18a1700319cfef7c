//! The input state tracker: which keys and buttons are currently held, and the
//! battery level that was last applied.
//!
//! The state is described by [`InputModel`], a plain mathematical value, and
//! every mutator of [`InputState`] is specified as a function on that model.

use std::collections::BTreeSet;
use vstd::prelude::*;

use crate::hid::{
    build_keyboard_report, build_mouse_report, is_modifier_usage, keyboard_report,
    modifier_bit, modifier_mask, mouse_report,
};

verus! {

/// How many ordinary keys can be held at once.
pub const MAX_PRESSED: usize = 6;

/// The highest battery level, in percent.
pub const BATTERY_FULL: u8 = 100;

/// A button of the pointing device.
#[derive(Clone, Copy, Debug, PartialEq, Eq, Structural)]
pub enum MouseButton {
    Left,
    Right,
    Middle,
    Back,
    Forward,
    Other(u16),
}

/// The bit that a button owns in the button mask; buttons beyond the first
/// three own none.
pub open spec fn button_bit(button: MouseButton) -> Option<u8> {
    match button {
        MouseButton::Left => Some(0x01u8),
        MouseButton::Middle => Some(0x02u8),
        MouseButton::Right => Some(0x04u8),
        _ => None,
    }
}

/// A mask with the given bits set or cleared.
pub open spec fn with_bits(mask: u8, bits: u8, on: bool) -> u8 {
    if on {
        mask | bits
    } else {
        mask & !bits
    }
}

/// Returns the button-mask bit of a button if it is one of the first three.
pub fn mouse_button_bit(button: MouseButton) -> (bit: Option<u8>)
    ensures
        bit == button_bit(button),
{
    match button {
        MouseButton::Left => Some(0x01),
        MouseButton::Middle => Some(0x02),
        MouseButton::Right => Some(0x04),
        _ => None,
    }
}

/// Sets or clears bits of a mask.
pub fn apply_bits(mask: u8, bits: u8, on: bool) -> (next: u8)
    ensures
        next == with_bits(mask, bits, on),
{
    if on {
        mask | bits
    } else {
        mask & !bits
    }
}

/// The held keys after `usage` goes down. A key that is already held keeps its
/// place; a new key joins at the end, and the key held longest leaves when
/// that makes more than [`MAX_PRESSED`].
pub open spec fn press(pressed: Seq<u8>, usage: u8) -> Seq<u8> {
    if pressed.contains(usage) {
        pressed
    } else {
        let grown = pressed.push(usage);
        if grown.len() > MAX_PRESSED {
            grown.drop_first()
        } else {
            grown
        }
    }
}

/// The held keys after `usage` goes up.
pub open spec fn release(pressed: Seq<u8>, usage: u8) -> Seq<u8> {
    if pressed.contains(usage) {
        pressed.remove(pressed.index_of(usage))
    } else {
        pressed
    }
}

/// The tracked input state as a mathematical value.
pub struct InputModel {
    /// One bit per held modifier.
    pub modifiers: u8,
    /// The held ordinary keys, the one held longest first.
    pub pressed: Seq<u8>,
    /// One bit per held mouse button.
    pub buttons: u8,
    /// The battery level that was applied last.
    pub battery: u8,
}

impl InputModel {
    /// Nothing held, battery level zero.
    pub open spec fn initial() -> InputModel {
        InputModel { modifiers: 0, pressed: Seq::empty(), buttons: 0, battery: 0 }
    }

    /// At most six distinct ordinary keys are held, only the three button bits
    /// are used, and the battery level is a percentage.
    pub open spec fn wf(self) -> bool {
        &&& self.pressed.len() <= MAX_PRESSED
        &&& self.pressed.no_duplicates()
        &&& forall|i: int| 0 <= i < self.pressed.len() ==> !is_modifier_usage(#[trigger] self.pressed[i])
        &&& self.buttons < 8
        &&& self.battery <= BATTERY_FULL
    }

    /// The state after a key goes down or up. A modifier usage moves its bit in
    /// the modifier byte; any other usage joins or leaves the held keys.
    pub open spec fn key_transition(self, usage: u8, is_down: bool) -> InputModel {
        match modifier_bit(usage) {
            Some(bit) => InputModel { modifiers: with_bits(self.modifiers, bit, is_down), ..self },
            None => InputModel {
                pressed: if is_down {
                    press(self.pressed, usage)
                } else {
                    release(self.pressed, usage)
                },
                ..self
            },
        }
    }

    /// The state after a mouse button goes down or up.
    pub open spec fn button_transition(self, button: MouseButton, is_down: bool) -> InputModel {
        match button_bit(button) {
            Some(bit) => InputModel { buttons: with_bits(self.buttons, bit, is_down), ..self },
            None => self,
        }
    }

    /// The state after a battery level is applied.
    pub open spec fn battery_reading(self, level: u8) -> InputModel {
        InputModel { battery: level, ..self }
    }

    /// The keyboard report of this state.
    pub open spec fn keyboard_report(self) -> Seq<u8> {
        keyboard_report(self.modifiers, self.pressed.to_set())
    }

    /// The mouse report of this state for the given motion.
    pub open spec fn mouse_report(self, dx: i8, dy: i8, wheel: i8) -> Seq<u8> {
        mouse_report(self.buttons, dx, dy, wheel)
    }
}

/// The bits of the three mouse buttons stay within the low three bits.
proof fn lemma_button_bits_stay_low(mask: u8, bit: u8)
    by (bit_vector)
    requires
        mask < 8,
        bit == 1 || bit == 2 || bit == 4,
    ensures
        (mask | bit) < 8,
        (mask & !bit) < 8,
{
}

/// Removing one element of a sequence without duplicates leaves the others,
/// still without duplicates.
proof fn lemma_remove_keeps(s: Seq<u8>, i: int)
    requires
        0 <= i < s.len(),
        s.no_duplicates(),
    ensures
        s.remove(i).len() == s.len() - 1,
        s.remove(i).no_duplicates(),
        forall|u: u8| #[trigger] s.remove(i).contains(u) <==> (s.contains(u) && u != s[i]),
        forall|k: int|
            0 <= k < s.len() - 1 ==> #[trigger] s.remove(i)[k] == if k < i {
                s[k]
            } else {
                s[k + 1]
            },
{
    let r = s.remove(i);
    assert forall|k: int| 0 <= k < s.len() - 1 implies #[trigger] r[k] == if k < i {
        s[k]
    } else {
        s[k + 1]
    } by {}
    assert forall|u: u8| #[trigger] r.contains(u) <==> (s.contains(u) && u != s[i]) by {
        if r.contains(u) {
            let k = choose|k: int| 0 <= k < r.len() && r[k] == u;
            if k < i {
                assert(s[k] == u);
            } else {
                assert(s[k + 1] == u);
            }
        }
        if s.contains(u) && u != s[i] {
            let k = choose|k: int| 0 <= k < s.len() && s[k] == u;
            if k < i {
                assert(r[k] == u);
            } else {
                assert(r[k - 1] == u);
            }
        }
    }
}

/// Releasing the key that is held at place `at` removes it from that place.
pub proof fn lemma_release_at(pressed: Seq<u8>, at: int)
    requires
        0 <= at < pressed.len(),
        pressed.no_duplicates(),
    ensures
        release(pressed, pressed[at]) == pressed.remove(at),
{
    assert(pressed.contains(pressed[at]));
}

/// Releasing a key that is not held changes nothing, and pressing one that is
/// held changes nothing either.
pub proof fn lemma_repeated_transition(pressed: Seq<u8>, usage: u8)
    ensures
        !pressed.contains(usage) ==> release(pressed, usage) == pressed,
        pressed.contains(usage) ==> press(pressed, usage) == pressed,
{
}

/// Every key transition keeps the state well formed.
pub proof fn lemma_key_transition_wf(state: InputModel, usage: u8, is_down: bool)
    requires
        state.wf(),
    ensures
        state.key_transition(usage, is_down).wf(),
{
    let next = state.key_transition(usage, is_down);
    if modifier_bit(usage) is None {
        let held = state.pressed;
        if is_down {
            if !held.contains(usage) {
                let grown = held.push(usage);
                assert(grown.no_duplicates()) by {
                    assert forall|i: int, j: int|
                        0 <= i < grown.len() && 0 <= j < grown.len() && i != j implies grown[i]
                        != grown[j] by {
                        if i < held.len() {
                            assert(held.contains(held[i]));
                        }
                        if j < held.len() {
                            assert(held.contains(held[j]));
                        }
                    }
                }
                assert forall|i: int| 0 <= i < grown.len() implies !is_modifier_usage(
                    #[trigger] grown[i],
                ) by {
                    if i < held.len() {
                        assert(grown[i] == held[i]);
                    }
                }
                if grown.len() > MAX_PRESSED {
                    lemma_remove_keeps(grown, 0);
                    assert(grown.drop_first() =~= grown.remove(0));
                    assert forall|i: int| 0 <= i < next.pressed.len() implies !is_modifier_usage(
                        #[trigger] next.pressed[i],
                    ) by {
                        assert(next.pressed[i] == grown[i + 1]);
                    }
                }
            }
        } else {
            if held.contains(usage) {
                let at = held.index_of(usage);
                lemma_remove_keeps(held, at);
                assert forall|i: int| 0 <= i < next.pressed.len() implies !is_modifier_usage(
                    #[trigger] next.pressed[i],
                ) by {
                    if i < at {
                        assert(next.pressed[i] == held[i]);
                    } else {
                        assert(next.pressed[i] == held[i + 1]);
                    }
                }
            }
        }
    }
}

/// Every button transition keeps the state well formed.
pub proof fn lemma_button_transition_wf(state: InputModel, button: MouseButton, is_down: bool)
    requires
        state.wf(),
    ensures
        state.button_transition(button, is_down).wf(),
{
    match button_bit(button) {
        Some(bit) => {
            lemma_button_bits_stay_low(state.buttons, bit);
        },
        None => {},
    }
}

/// An ordinary usage never touches the modifier byte, and a modifier usage
/// never touches the held keys.
pub proof fn lemma_modifiers_and_keys_apart(state: InputModel, usage: u8, is_down: bool)
    ensures
        !is_modifier_usage(usage) ==> state.key_transition(usage, is_down).modifiers
            == state.modifiers,
        is_modifier_usage(usage) ==> state.key_transition(usage, is_down).pressed == state.pressed,
        state.key_transition(usage, is_down).buttons == state.buttons,
        state.key_transition(usage, is_down).battery == state.battery,
{
}

/// Applying the same key transition twice changes nothing more than applying
/// it once.
pub proof fn lemma_key_transition_idempotent(state: InputModel, usage: u8, is_down: bool)
    requires
        state.wf(),
    ensures
        state.key_transition(usage, is_down).key_transition(usage, is_down)
            == state.key_transition(usage, is_down),
{
    let once = state.key_transition(usage, is_down);
    match modifier_bit(usage) {
        Some(bit) => {
            let mask = state.modifiers;
            assert((mask | bit) | bit == mask | bit) by (bit_vector);
            assert((mask & !bit) & !bit == mask & !bit) by (bit_vector);
        },
        None => {
            let held = state.pressed;
            if is_down {
                if !held.contains(usage) {
                    let grown = held.push(usage);
                    assert(grown[held.len() as int] == usage);
                    if grown.len() > MAX_PRESSED {
                        assert(grown.drop_first()[held.len() - 1] == usage);
                    }
                    assert(once.pressed.contains(usage));
                }
            } else {
                if held.contains(usage) {
                    lemma_remove_keeps(held, held.index_of(usage));
                }
            }
        },
    }
}

/// Applying the same button transition twice changes nothing more than
/// applying it once, and a battery level that is applied again is no change.
pub proof fn lemma_button_and_battery_idempotent(
    state: InputModel,
    button: MouseButton,
    is_down: bool,
    level: u8,
)
    ensures
        state.button_transition(button, is_down).button_transition(button, is_down)
            == state.button_transition(button, is_down),
        state.battery_reading(level).battery_reading(level) == state.battery_reading(level),
        state.battery_reading(level).battery == level,
{
    match button_bit(button) {
        Some(bit) => {
            let mask = state.buttons;
            assert((mask | bit) | bit == mask | bit) by (bit_vector);
            assert((mask & !bit) & !bit == mask & !bit) by (bit_vector);
        },
        None => {},
    }
}

/// The state after a run of key-down events, applied in order.
pub open spec fn key_downs(state: InputModel, usages: Seq<u8>) -> InputModel
    decreases usages.len(),
{
    if usages.len() == 0 {
        state
    } else {
        key_downs(state, usages.drop_last()).key_transition(usages.last(), true)
    }
}

/// The last [`MAX_PRESSED`] elements of a sequence, or all of a shorter one.
pub open spec fn latest(usages: Seq<u8>) -> Seq<u8> {
    if usages.len() <= MAX_PRESSED {
        usages
    } else {
        usages.subrange(usages.len() - MAX_PRESSED, usages.len() as int)
    }
}

/// Pressing distinct ordinary keys one after another, starting with none held,
/// leaves exactly the six pressed last, in the order they were pressed. So
/// never more than six are held, and from the seventh key on the key pressed
/// first is no longer among them, whatever its value.
pub proof fn lemma_key_downs_keep_latest(usages: Seq<u8>)
    requires
        usages.no_duplicates(),
        forall|i: int| 0 <= i < usages.len() ==> !is_modifier_usage(#[trigger] usages[i]),
    ensures
        key_downs(InputModel::initial(), usages).pressed == latest(usages),
        key_downs(InputModel::initial(), usages).pressed.len() <= MAX_PRESSED,
        key_downs(InputModel::initial(), usages).modifiers == 0,
        usages.len() > MAX_PRESSED ==> !key_downs(InputModel::initial(), usages).pressed.contains(
            usages[0],
        ),
    decreases usages.len(),
{
    let end = key_downs(InputModel::initial(), usages);
    if usages.len() > 0 {
        let before = usages.drop_last();
        let usage = usages.last();
        lemma_key_downs_keep_latest(before);
        let held = latest(before);
        assert(modifier_bit(usage) is None);
        assert(!held.contains(usage)) by {
            if held.contains(usage) {
                let i = choose|i: int| 0 <= i < held.len() && held[i] == usage;
                let at = if before.len() <= MAX_PRESSED {
                    i
                } else {
                    i + before.len() - MAX_PRESSED
                };
                assert(usages[at] == usage);
            }
        }
        assert(end.pressed == press(held, usage));
        assert(press(held, usage) =~= latest(usages));
    }
    if usages.len() > MAX_PRESSED {
        if end.pressed.contains(usages[0]) {
            let i = choose|i: int| 0 <= i < end.pressed.len() && end.pressed[i] == usages[0];
            assert(usages[i + usages.len() - MAX_PRESSED] == usages[0]);
        }
    }
}

/// The keys and buttons that are held and the battery level applied last.
pub struct InputState {
    modifiers: u8,
    pressed: Vec<u8>,
    buttons: u8,
    battery: u8,
}

impl View for InputState {
    type V = InputModel;

    closed spec fn view(&self) -> InputModel {
        InputModel {
            modifiers: self.modifiers,
            pressed: self.pressed@,
            buttons: self.buttons,
            battery: self.battery,
        }
    }
}

impl InputState {
    /// Every tracker holds a well-formed state.
    #[verifier::type_invariant]
    pub open spec fn inv(&self) -> bool {
        self@.wf()
    }

    /// A tracker with nothing held and battery level zero.
    pub fn new() -> (state: InputState)
        ensures
            state@ == InputModel::initial(),
            state@.wf(),
    {
        InputState { modifiers: 0, pressed: Vec::new(), buttons: 0, battery: 0 }
    }

    /// The modifier byte.
    pub fn modifiers(&self) -> (mask: u8)
        ensures
            mask == self@.modifiers,
    {
        self.modifiers
    }

    /// The mouse button mask.
    pub fn buttons(&self) -> (mask: u8)
        ensures
            mask == self@.buttons,
            mask < 8,
    {
        proof {
            use_type_invariant(self);
        }
        self.buttons
    }

    /// The battery level that was applied last.
    pub fn battery(&self) -> (level: u8)
        ensures
            level == self@.battery,
            level <= BATTERY_FULL,
    {
        proof {
            use_type_invariant(self);
        }
        self.battery
    }

    /// The held ordinary keys, the one held longest first.
    pub fn pressed(&self) -> (keys: Vec<u8>)
        ensures
            keys@ == self@.pressed,
            keys@.len() <= MAX_PRESSED,
    {
        proof {
            use_type_invariant(self);
        }
        self.pressed.clone()
    }

    fn position(&self, usage: u8) -> (at: Option<usize>)
        ensures
            match at {
                Some(i) => i < self@.pressed.len() && self@.pressed[i as int] == usage,
                None => !self@.pressed.contains(usage),
            },
    {
        let mut i: usize = 0;
        while i < self.pressed.len()
            invariant
                i <= self.pressed@.len(),
                forall|k: int| 0 <= k < i ==> self.pressed@[k] != usage,
            decreases self.pressed@.len() - i,
        {
            if self.pressed[i] == usage {
                return Some(i);
            }
            i = i + 1;
        }
        None
    }

    /// Records that a key went down or up.
    pub fn apply_key_transition(&mut self, usage: u8, is_down: bool)
        ensures
            final(self)@ == old(self)@.key_transition(usage, is_down),
            final(self)@.wf(),
    {
        proof {
            use_type_invariant(&*self);
            lemma_key_transition_wf(self@, usage, is_down);
        }
        match modifier_mask(usage) {
            Some(bit) => {
                self.modifiers = apply_bits(self.modifiers, bit, is_down);
            },
            None => {
                let at = self.position(usage);
                let mut held = self.pressed.clone();
                assert(held@ =~= self.pressed@);
                if is_down {
                    if at.is_none() {
                        if held.len() >= MAX_PRESSED {
                            held.remove(0);
                        }
                        held.push(usage);
                        assert(held@ =~= press(self.pressed@, usage));
                    }
                } else {
                    match at {
                        Some(i) => {
                            assert(self.pressed@.contains(usage));
                            assert(self.pressed@.index_of(usage) == i);
                            held.remove(i);
                        },
                        None => {},
                    }
                }
                self.pressed = held;
            },
        }
    }

    /// Records that a mouse button went down or up. A button without a bit in
    /// the mask changes nothing.
    pub fn apply_mouse_button_transition(&mut self, button: MouseButton, is_down: bool)
        ensures
            final(self)@ == old(self)@.button_transition(button, is_down),
            final(self)@.wf(),
    {
        proof {
            use_type_invariant(&*self);
            lemma_button_transition_wf(self@, button, is_down);
        }
        match mouse_button_bit(button) {
            Some(bit) => {
                self.buttons = apply_bits(self.buttons, bit, is_down);
            },
            None => {},
        }
    }

    /// Applies a battery level and says whether it differs from the level
    /// applied before.
    pub fn apply_battery_reading(&mut self, level: u8) -> (changed: bool)
        requires
            level <= BATTERY_FULL,
        ensures
            changed == (level != old(self)@.battery),
            final(self)@ == old(self)@.battery_reading(level),
            final(self)@.wf(),
    {
        proof {
            use_type_invariant(&*self);
        }
        let changed = level != self.battery;
        self.battery = level;
        changed
    }

    /// The keyboard report for the keys held now.
    pub fn snapshot_keyboard_report(&self) -> (report: [u8; 9])
        ensures
            report@ == self@.keyboard_report(),
    {
        broadcast use vstd::std_specs::btree::group_btree_axioms;

        let mut keys: BTreeSet<u8> = BTreeSet::new();
        let mut i: usize = 0;
        while i < self.pressed.len()
            invariant
                i <= self.pressed@.len(),
                forall|u: u8|
                    keys@.contains(u) <==> exists|k: int| 0 <= k < i && self.pressed@[k] == u,
            decreases self.pressed@.len() - i,
        {
            keys.insert(self.pressed[i]);
            i = i + 1;
        }
        assert(keys@ =~= self.pressed@.to_set());
        build_keyboard_report(self.modifiers, &keys)
    }

    /// The mouse report for the buttons held now and the given motion.
    pub fn snapshot_mouse_report(&self, dx: i8, dy: i8, wheel: i8) -> (report: [u8; 5])
        ensures
            report@ == self@.mouse_report(dx, dy, wheel),
    {
        build_mouse_report(self.buttons, dx, dy, wheel)
    }
}

} // verus!
