//! The commands that input producers send to the session, and the producer
//! for a window: it turns decoded window events into commands.

use std::collections::BTreeSet;
use vstd::prelude::*;

use crate::hid::{
    ascending, ascending_below, clamp_axis, clamped_axis, key_usage, keycode_to_hid,
    modifier_bit, modifier_mask, KeyCode,
};
use crate::tracker::{apply_bits, button_bit, mouse_button_bit, with_bits, MouseButton};

verus! {

/// A command from an input producer to the session.
#[derive(Clone, Copy, Debug, PartialEq, Eq, Structural)]
pub enum AppCmd {
    /// The pointer moved or a button changed: the button mask now, the motion
    /// since the last command, and the wheel notches.
    Mouse { buttons: u8, dx: i8, dy: i8, wheel: i8 },
    /// The key with this usage went down.
    KeyDown(u8),
    /// The key with this usage went up.
    KeyUp(u8),
    /// The host's battery level in percent.
    Battery(u8),
    /// End the session.
    Exit,
}

/// What a window reports, decoded. Positions and scroll distances arrive as
/// whole numbers: the motion since the last report, and whole wheel notches.
#[derive(Clone, Copy, Debug, PartialEq, Eq, Structural)]
pub enum WindowEvent {
    /// The window is asked to close.
    CloseRequested,
    /// The window is gone.
    Destroyed,
    /// A key went down or up; `code` is `None` for a key without a code.
    KeyboardInput { code: Option<KeyCode>, pressed: bool },
    /// A mouse button went down or up.
    MouseInput { button: MouseButton, pressed: bool },
    /// The pointer moved by this much since it was last seen in the window, or
    /// by nothing if it was not seen before.
    CursorMoved { dx: i32, dy: i32 },
    /// The wheel turned by this many notches.
    MouseWheel { notches: i32 },
    /// The window gained or lost the keyboard focus.
    Focused(bool),
    /// Anything else: nothing that is input.
    Other,
}

/// A key-up command for each usage, in order.
pub open spec fn key_ups(usages: Seq<u8>) -> Seq<AppCmd> {
    Seq::new(usages.len(), |i: int| AppCmd::KeyUp(usages[i]))
}

/// The producer's state as a mathematical value.
pub struct AppModel {
    /// One bit per held mouse button.
    pub mouse_buttons: u8,
    /// One bit per modifier that is down in the window.
    pub hid_mod_mask: u8,
    /// The usages of all keys that are down in the window.
    pub pressed_usages: Set<u8>,
    /// Whether the window is closing.
    pub exiting: bool,
}

impl AppModel {
    /// Nothing held, not closing.
    pub open spec fn initial() -> AppModel {
        AppModel { mouse_buttons: 0, hid_mod_mask: 0, pressed_usages: Set::empty(), exiting: false }
    }

    /// The mouse command for the buttons held now and the given motion, each
    /// axis limited to what a report can carry.
    pub open spec fn mouse_command(self, dx: int, dy: int, wheel: int) -> AppCmd {
        AppCmd::Mouse {
            buttons: self.mouse_buttons,
            dx: clamped_axis(dx),
            dy: clamped_axis(dy),
            wheel: clamped_axis(wheel),
        }
    }

    /// The state after a button went down or up.
    pub open spec fn set_button(self, button: MouseButton, pressed: bool) -> AppModel {
        match button_bit(button) {
            Some(bit) => AppModel {
                mouse_buttons: with_bits(self.mouse_buttons, bit, pressed),
                ..self
            },
            None => self,
        }
    }

    /// The state after a modifier went down or up; other usages change
    /// nothing here.
    pub open spec fn note_modifier(self, usage: u8, down: bool) -> AppModel {
        match modifier_bit(usage) {
            Some(bit) => AppModel { hid_mod_mask: with_bits(self.hid_mod_mask, bit, down), ..self },
            None => self,
        }
    }

    /// The state after a key with a usage went down or up.
    pub open spec fn key(self, usage: u8, down: bool) -> AppModel {
        AppModel {
            pressed_usages: if down {
                self.pressed_usages.insert(usage)
            } else {
                self.pressed_usages.remove(usage)
            },
            ..self
        }.note_modifier(usage, down)
    }

    /// The state after the window lost the focus: no key is down any more.
    pub open spec fn release_all(self) -> AppModel {
        AppModel { hid_mod_mask: 0, pressed_usages: Set::empty(), ..self }
    }

    /// The state after a window event, and the commands to send, in order.
    pub open spec fn window_event(self, event: WindowEvent) -> (AppModel, Seq<AppCmd>) {
        match event {
            WindowEvent::CloseRequested | WindowEvent::Destroyed => (
                AppModel { exiting: true, ..self },
                Seq::empty(),
            ),
            WindowEvent::KeyboardInput { code: Some(code), pressed } => {
                match key_usage(code) {
                    Some(usage) => (
                        self.key(usage, pressed),
                        seq![
                            if pressed {
                                AppCmd::KeyDown(usage)
                            } else {
                                AppCmd::KeyUp(usage)
                            },
                        ],
                    ),
                    None => (self, Seq::empty()),
                }
            },
            WindowEvent::KeyboardInput { code: None, pressed } => (self, Seq::empty()),
            WindowEvent::MouseInput { button, pressed } => {
                let next = self.set_button(button, pressed);
                (next, seq![next.mouse_command(0, 0, 0)])
            },
            WindowEvent::CursorMoved { dx, dy } => (
                self,
                seq![self.mouse_command(dx as int, dy as int, 0)],
            ),
            WindowEvent::MouseWheel { notches } => {
                if notches != 0 {
                    (self, seq![self.mouse_command(0, 0, notches as int)])
                } else {
                    (self, Seq::empty())
                }
            },
            WindowEvent::Focused(focused) => {
                if focused {
                    (self, Seq::empty())
                } else {
                    (self.release_all(), key_ups(ascending(self.pressed_usages)))
                }
            },
            WindowEvent::Other => (self, Seq::empty()),
        }
    }
}

/// A mouse command never carries an axis outside -127 to 127.
pub proof fn lemma_mouse_command_in_range(app: AppModel, dx: int, dy: int, wheel: int)
    ensures
        app.mouse_command(dx, dy, wheel) matches AppCmd::Mouse { buttons, dx: x, dy: y, wheel: w }
            && -127 <= x <= 127 && -127 <= y <= 127 && -127 <= w <= 127 && buttons
            == app.mouse_buttons,
{
}

/// The input producer of a window: it remembers which buttons and keys are
/// down and turns window events into commands.
pub struct App {
    mouse_buttons: u8,
    hid_mod_mask: u8,
    pressed_usages: BTreeSet<u8>,
    exiting: bool,
}

impl View for App {
    type V = AppModel;

    closed spec fn view(&self) -> AppModel {
        AppModel {
            mouse_buttons: self.mouse_buttons,
            hid_mod_mask: self.hid_mod_mask,
            pressed_usages: self.pressed_usages@,
            exiting: self.exiting,
        }
    }
}

impl App {
    /// A producer with nothing held.
    pub fn new() -> (app: App)
        ensures
            app@ == AppModel::initial(),
    {
        App { mouse_buttons: 0, hid_mod_mask: 0, pressed_usages: BTreeSet::new(), exiting: false }
    }

    /// Whether the window is closing.
    pub fn exiting(&self) -> (exiting: bool)
        ensures
            exiting == self@.exiting,
    {
        self.exiting
    }

    /// The mouse button mask.
    pub fn mouse_buttons(&self) -> (mask: u8)
        ensures
            mask == self@.mouse_buttons,
    {
        self.mouse_buttons
    }

    /// The modifier byte as the window saw it.
    pub fn hid_mod_mask(&self) -> (mask: u8)
        ensures
            mask == self@.hid_mod_mask,
    {
        self.hid_mod_mask
    }

    /// Records that a mouse button went down or up.
    pub fn set_button(&mut self, button: MouseButton, pressed: bool)
        ensures
            final(self)@ == old(self)@.set_button(button, pressed),
    {
        match mouse_button_bit(button) {
            Some(bit) => {
                self.mouse_buttons = apply_bits(self.mouse_buttons, bit, pressed);
            },
            None => {},
        }
    }

    /// The mouse command for the buttons held now and the given motion.
    pub fn mouse_command(&self, dx: i32, dy: i32, wheel: i32) -> (cmd: AppCmd)
        ensures
            cmd == self@.mouse_command(dx as int, dy as int, wheel as int),
    {
        AppCmd::Mouse {
            buttons: self.mouse_buttons,
            dx: clamp_axis(dx),
            dy: clamp_axis(dy),
            wheel: clamp_axis(wheel),
        }
    }

    /// Records that a modifier went down or up.
    pub fn note_modifier_physical_transition(&mut self, usage: u8, down: bool)
        ensures
            final(self)@ == old(self)@.note_modifier(usage, down),
    {
        match modifier_mask(usage) {
            Some(bit) => {
                self.hid_mod_mask = apply_bits(self.hid_mod_mask, bit, down);
            },
            None => {},
        }
    }

    fn release_all(&mut self) -> (cmds: Vec<AppCmd>)
        ensures
            final(self)@ == old(self)@.release_all(),
            cmds@ == key_ups(ascending(old(self)@.pressed_usages)),
    {
        broadcast use vstd::std_specs::btree::group_btree_axioms;

        let mut cmds: Vec<AppCmd> = Vec::new();
        let mut next: u16 = 0;
        while next < 256
            invariant
                next <= 256,
                cmds@ == key_ups(ascending_below(self.pressed_usages@, next as nat)),
            decreases 256 - next,
        {
            let usage = next as u8;
            if self.pressed_usages.contains(&usage) {
                cmds.push(AppCmd::KeyUp(usage));
            }
            next = next + 1;
            assert(cmds@ =~= key_ups(ascending_below(self.pressed_usages@, next as nat)));
        }
        self.pressed_usages.clear();
        self.hid_mod_mask = 0;
        cmds
    }

    /// Takes a window event and returns the commands to send, in order.
    pub fn window_event(&mut self, event: WindowEvent) -> (cmds: Vec<AppCmd>)
        ensures
            (final(self)@, cmds@) == old(self)@.window_event(event),
    {
        let mut cmds: Vec<AppCmd> = Vec::new();
        match event {
            WindowEvent::CloseRequested | WindowEvent::Destroyed => {
                self.exiting = true;
            },
            WindowEvent::KeyboardInput { code: Some(code), pressed } => {
                match keycode_to_hid(code) {
                    Some(usage) => {
                        if pressed {
                            self.pressed_usages.insert(usage);
                            cmds.push(AppCmd::KeyDown(usage));
                        } else {
                            self.pressed_usages.remove(&usage);
                            cmds.push(AppCmd::KeyUp(usage));
                        }
                        self.note_modifier_physical_transition(usage, pressed);
                    },
                    None => {},
                }
            },
            WindowEvent::KeyboardInput { code: None, pressed } => {},
            WindowEvent::MouseInput { button, pressed } => {
                self.set_button(button, pressed);
                cmds.push(self.mouse_command(0, 0, 0));
            },
            WindowEvent::CursorMoved { dx, dy } => {
                cmds.push(self.mouse_command(dx, dy, 0));
            },
            WindowEvent::MouseWheel { notches } => {
                if notches != 0 {
                    cmds.push(self.mouse_command(0, 0, notches));
                }
            },
            WindowEvent::Focused(focused) => {
                if !focused {
                    return self.release_all();
                }
            },
            WindowEvent::Other => {},
        }
        assert(cmds@ =~= old(self)@.window_event(event).1);
        cmds
    }
}

} // verus!
