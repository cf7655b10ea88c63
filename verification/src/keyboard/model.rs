//! The keyboard session as a mathematical state machine: which keys are
//! held, which locks are on, and what one scancode does to both.

use vstd::prelude::*;
use super::event::{KeyEvent, KeyEventType};
use super::flags::ModifierFlags;
use super::keymap::codes;
use super::keymap::codes::Keycode;
use super::keymap::us_qwerty_char;
use super::scancode::Scancode;

verus! {

/// What a keyboard session remembers between scancodes.
pub ghost struct KeyboardState {
    /// The keys that are held down.
    pub pressed: Set<Keycode>,
    /// Whether num lock is on.
    pub num_lock: bool,
    /// Whether scroll lock is on.
    pub scroll_lock: bool,
    /// Whether caps lock is on.
    pub caps_lock: bool,
    /// Whether function lock is on.
    pub function_lock: bool,
}

impl KeyboardState {
    /// The state of a session that has seen no scancode: no key held, no
    /// lock on.
    pub open spec fn initial() -> KeyboardState {
        KeyboardState {
            pressed: Set::empty(),
            num_lock: false,
            scroll_lock: false,
            caps_lock: false,
            function_lock: false,
        }
    }

    /// Whether the four locks are in `other` as they are here.
    pub open spec fn same_locks(self, other: KeyboardState) -> bool {
        &&& self.num_lock == other.num_lock
        &&& self.scroll_lock == other.scroll_lock
        &&& self.caps_lock == other.caps_lock
        &&& self.function_lock == other.function_lock
    }

    /// Whether a shift key is held.
    pub open spec fn shift(self) -> bool {
        self.pressed.contains(codes::LEFT_SHIFT) || self.pressed.contains(codes::RIGHT_SHIFT)
    }

    /// The modifiers that an event arriving in this state carries.
    pub open spec fn modifiers(self) -> ModifierFlags {
        ModifierFlags::spec_from_modifiers(self.shift(), self.num_lock, self.caps_lock)
    }

    /// How a scancode for `keycode` is classified in this state: a release
    /// is a break whatever came before, a press of a held key a repeat, and
    /// any other press a make.
    pub open spec fn classify(self, keycode: Keycode, make: bool) -> KeyEventType {
        if !make {
            KeyEventType::Break
        } else if self.pressed.contains(keycode) {
            KeyEventType::Repeat
        } else {
            KeyEventType::Make
        }
    }

    /// The event that a scancode gives in this state: none where the tables
    /// do not know the scancode.
    pub open spec fn event(self, scancode: Scancode) -> Option<KeyEvent> {
        match scancode.spec_keycode() {
            Ok(keycode) => Some(
                KeyEvent {
                    keycode,
                    char: us_qwerty_char(keycode).resolve(
                        self.shift(),
                        self.num_lock,
                        self.caps_lock,
                    ),
                    event_type: self.classify(keycode, scancode.make),
                    modifiers: self.modifiers(),
                },
            ),
            Err(_) => None,
        }
    }

    /// The state after the locks have taken an event in. Only a make
    /// toggles a lock: that of the scroll, num or caps lock key its own, and
    /// that of escape the function lock while the function key is held. The
    /// held keys stay as they are.
    pub open spec fn toggle_locks(self, event: KeyEvent) -> KeyboardState {
        let make = event.event_type == KeyEventType::Make;
        KeyboardState {
            pressed: self.pressed,
            num_lock: self.num_lock != (make && event.keycode == codes::NUM_LOCK),
            scroll_lock: self.scroll_lock != (make && event.keycode == codes::SCROLL_LOCK),
            caps_lock: self.caps_lock != (make && event.keycode == codes::CAPS_LOCK),
            function_lock: self.function_lock != (make && event.keycode == codes::ESCAPE
                && self.pressed.contains(codes::FUNCTION)),
        }
    }

    /// The state with one key marked held or released.
    pub open spec fn set_pressed(self, keycode: Keycode, held: bool) -> KeyboardState {
        KeyboardState {
            pressed: if held {
                self.pressed.insert(keycode)
            } else {
                self.pressed.remove(keycode)
            },
            ..self
        }
    }

    /// The state after a scancode. An unknown scancode changes nothing; a
    /// known one updates the locks, then marks its key held on a make and
    /// released on a break.
    pub open spec fn step(self, scancode: Scancode) -> KeyboardState {
        match self.event(scancode) {
            Some(event) => self.toggle_locks(event).set_pressed(event.keycode, scancode.make),
            None => self,
        }
    }

    /// The state after a run of scancodes, taken in order.
    pub open spec fn run(self, scancodes: Seq<Scancode>) -> KeyboardState
        decreases scancodes.len(),
    {
        if scancodes.len() == 0 {
            self
        } else {
            self.run(scancodes.drop_last()).step(scancodes.last())
        }
    }
}

} // verus!
