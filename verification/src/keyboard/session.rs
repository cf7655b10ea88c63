//! The PS/2 keyboard session: the state that turns scancodes into events.

use vstd::prelude::*;
use super::event::{KeyEvent, KeyEventType};
use super::flags::{
    ModifierFlags, StateFlags, STATE_CAPS_LOCK, STATE_FUNCTION_LOCK, STATE_NUM_LOCK,
    STATE_SCROLL_LOCK,
};
use super::keymap::codes;
use super::keymap::codes::Keycode;
use super::keymap::get_us_qwerty_char;
use super::model::KeyboardState;
use super::scancode::{Scancode, Scanset};

verus! {

/// Number of bytes that hold one bit for each keycode.
pub const KEY_STATE_LENGTH: usize = 32;

/// Whether bit `bit` of `bucket` is set.
pub open spec fn bit_is_set(bucket: u8, bit: u8) -> bool {
    (bucket >> bit) & 1 != 0
}

/// Whether the bit of `keycode` is set in a key state map. The byte 0xFF is
/// no keycode and counts as not pressed.
pub open spec fn key_is_set(map: Seq<u8>, keycode: Keycode) -> bool {
    keycode < codes::KEYCODE_LIMIT && bit_is_set(map[keycode as int / 8], keycode % 8)
}

proof fn lemma_set_bit(bucket: u8, bit: u8, other: u8)
    by (bit_vector)
    requires
        bit < 8,
        other < 8,
    ensures
        bit_is_set(bucket | (1u8 << bit), other) == (other == bit || bit_is_set(bucket, other)),
{
}

proof fn lemma_clear_bit(bucket: u8, bit: u8, other: u8)
    by (bit_vector)
    requires
        bit < 8,
        other < 8,
    ensures
        bit_is_set(bucket & !(1u8 << bit), other) == (other != bit && bit_is_set(bucket, other)),
{
}

proof fn lemma_zero_bit(bit: u8)
    by (bit_vector)
    requires
        bit < 8,
    ensures
        !bit_is_set(0u8, bit),
{
}

/// What the session reports for one poll of the controller.
#[derive(Copy, Clone, Debug, PartialEq, Eq, Structural)]
pub struct Poll {
    /// The event, if the poll brought a scancode that the tables know.
    pub event: Option<KeyEvent>,
    /// Whether the port should be validated again: the poll brought a
    /// scancode that the tables do not know, so the device has probably
    /// changed.
    pub port_dirty: bool,
}

/// Handles the state of a PS/2 keyboard: which keys are held, and which
/// locks are on.
pub struct Ps2Keyboard {
    key_state_map: [u8; KEY_STATE_LENGTH],
    state: StateFlags,
}

impl View for Ps2Keyboard {
    type V = KeyboardState;

    closed spec fn view(&self) -> KeyboardState {
        KeyboardState {
            pressed: Set::new(|keycode: Keycode| key_is_set(self.key_state_map@, keycode)),
            num_lock: self.state.spec_num_lock(),
            scroll_lock: self.state.spec_scroll_lock(),
            caps_lock: self.state.spec_caps_lock(),
            function_lock: self.state.spec_function_lock(),
        }
    }
}

impl Ps2Keyboard {
    /// Creates a session in which no key is held and no lock is on.
    pub fn new() -> (keyboard: Ps2Keyboard)
        ensures
            keyboard@ == KeyboardState::initial(),
    {
        let keyboard = Ps2Keyboard { key_state_map: [0u8; KEY_STATE_LENGTH], state: StateFlags::empty() };
        proof {
            assert forall|keycode: Keycode| !key_is_set(keyboard.key_state_map@, keycode) by {
                if keycode < codes::KEYCODE_LIMIT {
                    lemma_zero_bit(keycode % 8);
                }
            }
            assert(keyboard@.pressed =~= Set::empty());
        }
        keyboard
    }

    /// The scanset to ask a keyboard for when it is attached or changes: the
    /// tables of this driver are those of set 2.
    pub fn on_keyboard_change() -> (scanset: Scanset)
        ensures
            scanset == Scanset::Two,
    {
        Scanset::Two
    }

    /// Returns `true` if the given keycode is currently being pressed. A
    /// byte that is no keycode is never pressed.
    pub fn pressed(&self, keycode: Keycode) -> (held: bool)
        ensures
            held == self@.pressed.contains(keycode),
    {
        if keycode >= codes::KEYCODE_LIMIT {
            return false;
        }
        let index: usize = keycode as usize;
        let bucket: u8 = self.key_state_map[index / 8];
        let bit_index: u8 = keycode % 8;
        ((bucket >> bit_index) & 1) != 0
    }

    /// Returns `true` if num lock is on.
    pub fn num_lock(&self) -> (on: bool)
        ensures
            on == self@.num_lock,
    {
        self.state.contains(STATE_NUM_LOCK)
    }

    /// Returns `true` if scroll lock is on.
    pub fn scroll_lock(&self) -> (on: bool)
        ensures
            on == self@.scroll_lock,
    {
        self.state.contains(STATE_SCROLL_LOCK)
    }

    /// Returns `true` if caps lock is on.
    pub fn caps_lock(&self) -> (on: bool)
        ensures
            on == self@.caps_lock,
    {
        self.state.contains(STATE_CAPS_LOCK)
    }

    /// Returns `true` if function lock is on.
    pub fn function_lock(&self) -> (on: bool)
        ensures
            on == self@.function_lock,
    {
        self.state.contains(STATE_FUNCTION_LOCK)
    }

    /// Creates a [`KeyEvent`] from the given scancode and key state, or none
    /// where the scancode is unknown. The state is left as it is.
    pub fn create_event(&self, scancode: &Scancode) -> (event: Option<KeyEvent>)
        ensures
            event == self@.event(*scancode),
            event matches Some(e) ==> e.keycode < codes::KEYCODE_LIMIT,
    {
        let shift = self.pressed(codes::LEFT_SHIFT) || self.pressed(codes::RIGHT_SHIFT);
        let num_lock = self.state.contains(STATE_NUM_LOCK);
        let caps_lock = self.state.contains(STATE_CAPS_LOCK);
        let modifiers = ModifierFlags::from_modifiers(shift, num_lock, caps_lock);

        match scancode.keycode() {
            Ok(keycode) => {
                let char = get_us_qwerty_char(keycode).char(modifiers);
                // If the key was already pressed and make was sent, this is a repeat event
                let event_type = if !scancode.make {
                    KeyEventType::Break
                } else if self.pressed(keycode) {
                    KeyEventType::Repeat
                } else {
                    KeyEventType::Make
                };
                Some(KeyEvent { keycode, char, event_type, modifiers })
            },
            Err(_) => None,
        }
    }

    /// Updates the lock states with a key event; the held keys stay as they
    /// are.
    pub fn handle_state(&mut self, event: KeyEvent)
        ensures
            final(self)@ == old(self)@.toggle_locks(event),
    {
        if event.event_type == KeyEventType::Make {
            if event.keycode == codes::SCROLL_LOCK {
                self.state.toggle(STATE_SCROLL_LOCK);
            } else if event.keycode == codes::NUM_LOCK {
                self.state.toggle(STATE_NUM_LOCK);
            } else if event.keycode == codes::CAPS_LOCK {
                self.state.toggle(STATE_CAPS_LOCK);
            } else if event.keycode == codes::ESCAPE && self.pressed(codes::FUNCTION) {
                self.state.toggle(STATE_FUNCTION_LOCK);
            }
        }
    }

    /// Marks a key as held (`held` true) or released.
    fn set_pressed(&mut self, keycode: Keycode, held: bool)
        requires
            keycode < codes::KEYCODE_LIMIT,
        ensures
            final(self)@ == old(self)@.set_pressed(keycode, held),
    {
        let index: usize = keycode as usize;
        let bit_index: u8 = keycode % 8;
        let bit: u8 = 1u8 << bit_index;
        let bucket_index: usize = index / 8;
        let bucket: u8 = self.key_state_map[bucket_index];
        let updated: u8 = if held {
            bucket | bit
        } else {
            bucket & !bit
        };
        self.key_state_map[bucket_index] = updated;
        proof {
            let before = old(self).key_state_map@;
            let after = self.key_state_map@;
            assert forall|other: Keycode|
                key_is_set(after, other) == if held {
                    other == keycode || key_is_set(before, other)
                } else {
                    other != keycode && key_is_set(before, other)
                } by {
                if other < codes::KEYCODE_LIMIT && other as int / 8 == keycode as int / 8 {
                    lemma_set_bit(bucket, bit_index, other % 8);
                    lemma_clear_bit(bucket, bit_index, other % 8);
                }
            }
            if held {
                assert(self@.pressed =~= old(self)@.pressed.insert(keycode));
            } else {
                assert(self@.pressed =~= old(self)@.pressed.remove(keycode));
            }
        }
    }

    /// Consumes one scancode: hands out its event and updates the locks and
    /// the held keys. A scancode that the tables do not know gives no event
    /// and changes nothing.
    pub fn consume(&mut self, scancode: Scancode) -> (event: Option<KeyEvent>)
        ensures
            event == old(self)@.event(scancode),
            final(self)@ == old(self)@.step(scancode),
            event.is_none() <==> scancode.spec_keycode().is_err(),
    {
        let event = self.create_event(&scancode);
        if let Some(event) = event {
            // Update states such as caps lock with this key event
            self.handle_state(event);
            self.set_pressed(event.keycode, scancode.make);
        }
        event
    }

    /// Takes what one poll of the controller brought: a scancode, none, or
    /// the failure of the transport. A scancode is consumed, and the port is
    /// reported dirty where the tables do not know it. A poll that brought
    /// nothing is no error: it gives no event and changes nothing. A failure
    /// is handed on as it came, and changes nothing either.
    pub fn read_event<E>(&mut self, reading: Result<Option<Scancode>, E>) -> (poll: Result<Poll, E>)
        ensures
            match reading {
                Ok(Some(scancode)) => {
                    &&& poll == Ok::<Poll, E>(
                        Poll {
                            event: old(self)@.event(scancode),
                            port_dirty: scancode.spec_keycode().is_err(),
                        },
                    )
                    &&& final(self)@ == old(self)@.step(scancode)
                },
                Ok(None) => {
                    &&& poll == Ok::<Poll, E>(Poll { event: None, port_dirty: false })
                    &&& final(self)@ == old(self)@
                },
                Err(error) => {
                    &&& poll == Err::<Poll, E>(error)
                    &&& final(self)@ == old(self)@
                },
            },
    {
        match reading {
            Ok(Some(scancode)) => {
                let event = self.consume(scancode);
                // If we received a scancode but it was invalid, the device probably changed.
                Ok(Poll { event, port_dirty: event.is_none() })
            },
            Ok(None) => Ok(Poll { event: None, port_dirty: false }),
            Err(error) => Err(error),
        }
    }
}

} // verus!
