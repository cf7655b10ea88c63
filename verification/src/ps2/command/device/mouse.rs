//! Commands that only a PS/2 mouse understands. Nothing in this crate
//! sends them yet.

use vstd::prelude::*;

verus! {

/// Represents a PS/2 mouse command without a return and without additional
/// data.
#[derive(Copy, Clone, Debug, PartialEq, Eq, Structural)]
pub enum Command {
    SetRemoteMode,
    SetWrapMode,
    SetStreamMode,
    StatusRequest,
    RequestSinglePacket,
}

impl Command {
    /// The byte that stands for this command on the wire.
    pub open spec fn spec_code(self) -> u8 {
        match self {
            Command::SetRemoteMode => 0xF0,
            Command::SetWrapMode => 0xEE,
            Command::SetStreamMode => 0xEA,
            Command::StatusRequest => 0xE9,
            Command::RequestSinglePacket => 0xEB,
        }
    }

    /// Gets the byte to send for this command.
    pub fn code(&self) -> (code: u8)
        ensures
            code == self.spec_code(),
    {
        match self {
            Command::SetRemoteMode => 0xF0,
            Command::SetWrapMode => 0xEE,
            Command::SetStreamMode => 0xEA,
            Command::StatusRequest => 0xE9,
            Command::RequestSinglePacket => 0xEB,
        }
    }

    /// No two commands of this set share a byte.
    pub proof fn lemma_code_injective(a: Command, b: Command)
        requires
            a.spec_code() == b.spec_code(),
        ensures
            a == b,
    {
    }
}

/// Represents a PS/2 mouse command where additional data can be sent.
#[derive(Copy, Clone, Debug, PartialEq, Eq, Structural)]
pub enum DataCommand {
    SetSampleRate,
    SetResolution,
}

impl DataCommand {
    /// The byte that stands for this command on the wire.
    pub open spec fn spec_code(self) -> u8 {
        match self {
            DataCommand::SetSampleRate => 0xF3,
            DataCommand::SetResolution => 0xE8,
        }
    }

    /// Gets the byte to send for this command.
    pub fn code(&self) -> (code: u8)
        ensures
            code == self.spec_code(),
    {
        match self {
            DataCommand::SetSampleRate => 0xF3,
            DataCommand::SetResolution => 0xE8,
        }
    }

    /// No two commands of this set share a byte.
    pub proof fn lemma_code_injective(a: DataCommand, b: DataCommand)
        requires
            a.spec_code() == b.spec_code(),
        ensures
            a == b,
    {
    }
}

} // verus!
