//! The vocabulary of the PS/2 protocol.

pub mod command;
