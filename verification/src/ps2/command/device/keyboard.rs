//! Commands that only a PS/2 keyboard understands.

use vstd::prelude::*;

verus! {

/// Represents a PS/2 keyboard command without additional data.
#[derive(Copy, Clone, Debug, PartialEq, Eq, Structural)]
pub enum Command {
    /// Scan set 3 only.
    SendRepeatEvents,
    /// Scan set 3 only.
    SendMakeReleaseEvents,
    /// Scan set 3 only.
    SendMakeEvents,
    /// Scan set 3 only.
    SendAllEvents,
}

impl Command {
    /// The byte that stands for this command on the wire.
    pub open spec fn spec_code(self) -> u8 {
        match self {
            Command::SendRepeatEvents => 0xF7,
            Command::SendMakeReleaseEvents => 0xF8,
            Command::SendMakeEvents => 0xF9,
            Command::SendAllEvents => 0xFA,
        }
    }

    /// Gets the byte to send for this command.
    pub fn code(&self) -> (code: u8)
        ensures
            code == self.spec_code(),
    {
        match self {
            Command::SendRepeatEvents => 0xF7,
            Command::SendMakeReleaseEvents => 0xF8,
            Command::SendMakeEvents => 0xF9,
            Command::SendAllEvents => 0xFA,
        }
    }

    /// No two commands of this set share a byte.
    pub proof fn lemma_code_injective(a: Command, b: Command)
        requires
            a.spec_code() == b.spec_code(),
        ensures
            a == b,
    {
    }
}

/// Represents a PS/2 keyboard command where additional data can be sent.
#[derive(Copy, Clone, Debug, PartialEq, Eq, Structural)]
pub enum DataCommand {
    SetLeds,
    SetTypematicOptions,
    /// Scan set 3 only.
    KeySendRepeatEvents,
    /// Scan set 3 only.
    KeySendMakeReleaseEvents,
    /// Scan set 3 only.
    KeySendMakeEvents,
    SetGetScancode,
}

impl DataCommand {
    /// The byte that stands for this command on the wire.
    pub open spec fn spec_code(self) -> u8 {
        match self {
            DataCommand::SetLeds => 0xED,
            DataCommand::SetTypematicOptions => 0xF3,
            DataCommand::KeySendRepeatEvents => 0xFB,
            DataCommand::KeySendMakeReleaseEvents => 0xFC,
            DataCommand::KeySendMakeEvents => 0xFD,
            DataCommand::SetGetScancode => 0xF0,
        }
    }

    /// Gets the byte to send for this command.
    pub fn code(&self) -> (code: u8)
        ensures
            code == self.spec_code(),
    {
        match self {
            DataCommand::SetLeds => 0xED,
            DataCommand::SetTypematicOptions => 0xF3,
            DataCommand::KeySendRepeatEvents => 0xFB,
            DataCommand::KeySendMakeReleaseEvents => 0xFC,
            DataCommand::KeySendMakeEvents => 0xFD,
            DataCommand::SetGetScancode => 0xF0,
        }
    }

    /// No two commands of this set share a byte.
    pub proof fn lemma_code_injective(a: DataCommand, b: DataCommand)
        requires
            a.spec_code() == b.spec_code(),
        ensures
            a == b,
    {
    }
}

} // verus!
