//! Keyboard input layer of a small kernel: scancode tables, character
//! resolution, and the stateful synthesizer that turns scancodes into key
//! events. Hardware access is left to the caller, which hands scancodes in
//! and carries out what the session asks for.

pub mod keyboard;
pub mod ps2;
