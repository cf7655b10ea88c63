//! Scancodes as the controller hands them over, and the keycodes that they
//! stand for.

use vstd::prelude::*;
use super::keymap::codes::Keycode;
use super::keymap::{
    extended_code, get_code_ps2_set_2, get_extended_code_ps2_set_2, plain_code,
};

verus! {

/// One key transition as the keyboard reports it.
#[derive(Copy, Clone, Debug, PartialEq, Eq, Structural)]
pub struct Scancode {
    /// The code byte, without prefix bytes.
    pub code: u8,
    /// Whether the code followed the extended prefix, and so belongs to the
    /// extended space.
    pub extended: bool,
    /// `true` for a press (make), `false` for a release (break).
    pub make: bool,
}

/// A scancode that the tables do not know, with the space it came from.
#[derive(Copy, Clone, Debug, PartialEq, Eq, Structural)]
pub enum UnknownScancode {
    UnknownPlainScancode(u8),
    UnknownExtendedScancode(u8),
}

/// The scancode dialects that a PS/2 keyboard can be asked to speak.
#[derive(Copy, Clone, Debug, PartialEq, Eq, Structural)]
pub enum Scanset {
    One,
    Two,
    Three,
}

impl Scancode {
    /// The keycode of this scancode: looked up in the table of its space,
    /// and where that table has no entry, the byte under the name of the
    /// space.
    pub open spec fn spec_keycode(self) -> Result<Keycode, UnknownScancode> {
        if self.extended {
            match extended_code(self.code) {
                Some(keycode) => Ok(keycode),
                None => Err(UnknownScancode::UnknownExtendedScancode(self.code)),
            }
        } else {
            match plain_code(self.code) {
                Some(keycode) => Ok(keycode),
                None => Err(UnknownScancode::UnknownPlainScancode(self.code)),
            }
        }
    }

    /// Whether this scancode is one of the key `keycode`.
    pub open spec fn reports(self, keycode: Keycode) -> bool {
        self.spec_keycode() matches Ok(k) && k == keycode
    }

    /// Creates a scancode from its three parts.
    pub fn new(code: u8, extended: bool, make: bool) -> (scancode: Scancode)
        ensures
            scancode == (Scancode { code, extended, make }),
    {
        Scancode { code, extended, make }
    }

    /// Gets the keycode for this scancode, or says in which space the code
    /// is unknown.
    pub fn keycode(&self) -> (keycode: Result<Keycode, UnknownScancode>)
        ensures
            keycode == self.spec_keycode(),
            keycode matches Ok(k) ==> k < super::keymap::codes::KEYCODE_LIMIT,
    {
        let converted = if !self.extended {
            get_code_ps2_set_2(self.code)
        } else {
            get_extended_code_ps2_set_2(self.code)
        };
        match (converted, self.extended) {
            (Some(keycode), _) => Ok(keycode),
            (None, false) => Err(UnknownScancode::UnknownPlainScancode(self.code)),
            (None, true) => Err(UnknownScancode::UnknownExtendedScancode(self.code)),
        }
    }
}

} // verus!
