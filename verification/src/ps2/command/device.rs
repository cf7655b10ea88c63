//! Commands for the devices behind the PS/2 controller.

use vstd::prelude::*;

pub mod keyboard;
pub mod mouse;

verus! {

/// Represents a general PS/2 device command without additional data.
#[derive(Copy, Clone, Debug, PartialEq, Eq, Structural)]
pub enum Command {
    SetDefaults,
    Reset,
    /// Answered by the device with data.
    IdentifyDevice,
    /// Answered by the device with data.
    Echo,
    ResetEcho,
}

impl Command {
    /// The byte that stands for this command on the wire.
    pub open spec fn spec_code(self) -> u8 {
        match self {
            Command::SetDefaults => 0xF6,
            Command::Reset => 0xFF,
            Command::IdentifyDevice => 0xF2,
            Command::Echo => 0xEE,
            Command::ResetEcho => 0xEC,
        }
    }

    /// Gets the byte to send for this command.
    pub fn code(&self) -> (code: u8)
        ensures
            code == self.spec_code(),
    {
        match self {
            Command::SetDefaults => 0xF6,
            Command::Reset => 0xFF,
            Command::IdentifyDevice => 0xF2,
            Command::Echo => 0xEE,
            Command::ResetEcho => 0xEC,
        }
    }

    /// No two commands of this set share a byte.
    pub proof fn lemma_code_injective(a: Command, b: Command)
        requires
            a.spec_code() == b.spec_code(),
        ensures
            a == b,
    {
    }
}

} // verus!
