//! The events that a keyboard session hands out.

use vstd::prelude::*;
use super::flags::ModifierFlags;
use super::keymap::codes::Keycode;

verus! {

/// The type of key event that occurred.
#[derive(Copy, Clone, Debug, PartialEq, Eq, Structural)]
pub enum KeyEventType {
    /// When the key is initially pressed.
    Make,
    /// When the key is released.
    Break,
    /// When the key is held down, and a repeat is fired.
    Repeat,
}

/// Contains data relating to a key press event.
#[derive(Copy, Clone, Debug, PartialEq, Eq, Structural)]
pub struct KeyEvent {
    pub keycode: Keycode,
    pub char: Option<char>,
    pub event_type: KeyEventType,
    pub modifiers: ModifierFlags,
}

/// Interface to a generic keyboard, whatever carries its scancodes.
pub trait Keyboard {
    /// What the transport below the keyboard can fail with.
    type Error;

    /// Polls the device for a new key state event, or returns `None` if none
    /// have occurred since the last poll.
    fn read_event(&mut self) -> Result<Option<KeyEvent>, Self::Error>;

    /// Returns `true` if the given keycode is currently being pressed.
    fn pressed(&self, keycode: Keycode) -> bool;

    fn num_lock(&self) -> bool;

    fn scroll_lock(&self) -> bool;

    fn caps_lock(&self) -> bool;

    fn function_lock(&self) -> bool;
}

} // verus!
