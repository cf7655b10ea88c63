//! How a key turns into a character under the active modifiers.

use vstd::prelude::*;
use super::flags::ModifierFlags;

verus! {

/// Mapping from a keycode into a character.
#[derive(Copy, Clone, Debug, PartialEq, Eq, Structural)]
pub enum KeyCharMapping {
    /// A key with no character mapping.
    Empty,
    /// A key with a constant character mapping.
    Single(char),
    /// A key with an alternative character mapping when shift is pressed.
    Shifted(char, char),
    /// A key with an alternative character mapping when exactly one of caps
    /// lock and shift is active.
    Capitalized(char, char),
    /// A key that only maps to a character when num lock is disabled.
    NumLocked(char),
}

impl KeyCharMapping {
    /// The character that this mapping gives when shift, num lock and caps
    /// lock are as stated.
    pub open spec fn resolve(self, shift: bool, num_lock: bool, caps_lock: bool) -> Option<char> {
        match self {
            KeyCharMapping::Empty => None,
            KeyCharMapping::Single(character) => Some(character),
            KeyCharMapping::Shifted(character, shifted) => Some(
                if shift {
                    shifted
                } else {
                    character
                },
            ),
            KeyCharMapping::Capitalized(character, capital) => Some(
                if caps_lock != shift {
                    capital
                } else {
                    character
                },
            ),
            KeyCharMapping::NumLocked(character) => if num_lock {
                None
            } else {
                Some(character)
            },
        }
    }

    /// The character that this mapping gives under a set of modifiers.
    pub open spec fn spec_char(self, modifiers: ModifierFlags) -> Option<char> {
        self.resolve(modifiers.spec_shift(), modifiers.spec_num_lock(), modifiers.spec_caps_lock())
    }

    /// Gets the character for this mapping based on the given modifiers.
    pub fn char(&self, modifiers: ModifierFlags) -> (character: Option<char>)
        ensures
            character == self.spec_char(modifiers),
    {
        match *self {
            KeyCharMapping::Single(character) => Some(character),
            KeyCharMapping::Shifted(character, shifted) => if modifiers.shift() {
                Some(shifted)
            } else {
                Some(character)
            },
            KeyCharMapping::Capitalized(character, capital) => if modifiers.caps_lock()
                ^ modifiers.shift() {
                Some(capital)
            } else {
                Some(character)
            },
            KeyCharMapping::NumLocked(character) => if !modifiers.num_lock() {
                Some(character)
            } else {
                None
            },
            KeyCharMapping::Empty => None,
        }
    }
}

/// A key with a capital gives the capital exactly when one of caps lock and
/// shift is active and the other is not; with both it gives what it gives
/// with neither. Num lock has no say.
pub proof fn lemma_capitalized_xor(character: char, capital: char, num_lock: bool)
    ensures
        KeyCharMapping::Capitalized(character, capital).resolve(false, num_lock, false) == Some(
            character,
        ),
        KeyCharMapping::Capitalized(character, capital).resolve(true, num_lock, false) == Some(
            capital,
        ),
        KeyCharMapping::Capitalized(character, capital).resolve(false, num_lock, true) == Some(
            capital,
        ),
        KeyCharMapping::Capitalized(character, capital).resolve(true, num_lock, true) == Some(
            character,
        ),
{
}

/// A num-locked key gives its character while num lock is off and none
/// while it is on, whatever shift and caps lock are.
pub proof fn lemma_num_locked_gate(character: char, shift: bool, caps_lock: bool)
    ensures
        KeyCharMapping::NumLocked(character).resolve(shift, false, caps_lock) == Some(character),
        KeyCharMapping::NumLocked(character).resolve(shift, true, caps_lock).is_none(),
{
}

} // verus!
