//! Commands for the PS/2 controller itself.

use vstd::prelude::*;

verus! {

/// Represents a PS/2 controller command.
#[derive(Copy, Clone, Debug, PartialEq, Eq, Structural)]
pub enum Command {
    DisablePort2,
    EnablePort2,
    DisablePort1,
    EnablePort1,
    WriteCommandPort2,
    /// Answered by the controller with a byte.
    ReadConfig,
    /// Answered by the controller with a byte.
    TestController,
    /// Answered by the controller with a byte.
    TestPort1,
    /// Answered by the controller with a byte.
    TestPort2,
}

impl Command {
    /// The byte that stands for this command on the wire.
    pub open spec fn spec_code(self) -> u8 {
        match self {
            Command::DisablePort2 => 0xA7,
            Command::EnablePort2 => 0xA8,
            Command::DisablePort1 => 0xAD,
            Command::EnablePort1 => 0xAE,
            Command::WriteCommandPort2 => 0xD4,
            Command::ReadConfig => 0x20,
            Command::TestController => 0xAA,
            Command::TestPort1 => 0xAB,
            Command::TestPort2 => 0xA9,
        }
    }

    /// Gets the byte to send for this command.
    pub fn code(&self) -> (code: u8)
        ensures
            code == self.spec_code(),
    {
        match self {
            Command::DisablePort2 => 0xA7,
            Command::EnablePort2 => 0xA8,
            Command::DisablePort1 => 0xAD,
            Command::EnablePort1 => 0xAE,
            Command::WriteCommandPort2 => 0xD4,
            Command::ReadConfig => 0x20,
            Command::TestController => 0xAA,
            Command::TestPort1 => 0xAB,
            Command::TestPort2 => 0xA9,
        }
    }

    /// No two commands of this set share a byte.
    pub proof fn lemma_code_injective(a: Command, b: Command)
        requires
            a.spec_code() == b.spec_code(),
        ensures
            a == b,
    {
    }
}

/// Represents a PS/2 controller command with a data value.
#[derive(Copy, Clone, Debug, PartialEq, Eq, Structural)]
pub enum DataCommand {
    WriteConfig,
}

impl DataCommand {
    /// The byte that stands for this command on the wire.
    pub open spec fn spec_code(self) -> u8 {
        match self {
            DataCommand::WriteConfig => 0x60,
        }
    }

    /// Gets the byte to send for this command.
    pub fn code(&self) -> (code: u8)
        ensures
            code == self.spec_code(),
    {
        match self {
            DataCommand::WriteConfig => 0x60,
        }
    }

    /// No two commands of this set share a byte.
    pub proof fn lemma_code_injective(a: DataCommand, b: DataCommand)
        requires
            a.spec_code() == b.spec_code(),
        ensures
            a == b,
    {
    }
}

} // verus!
