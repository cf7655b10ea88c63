//! Event based keyboard handling.
//!
//! A [`Ps2Keyboard`] consumes scancodes one at a time and answers each with
//! an optional [`KeyEvent`]: the keycode (see [`keymap::codes`]), the
//! character it resolves to under the active modifiers, and whether the key
//! was pressed, released or is repeating.

pub mod event;
pub mod flags;
pub mod keymap;
pub mod laws;
pub mod mapping;
pub mod model;
pub mod scancode;
pub mod session;

pub use self::event::{KeyEvent, KeyEventType, Keyboard};
pub use self::flags::{ModifierFlags, StateFlags};
pub use self::keymap::codes::Keycode;
pub use self::mapping::KeyCharMapping;
pub use self::model::KeyboardState;
pub use self::scancode::{Scancode, Scanset, UnknownScancode};
pub use self::session::{Poll, Ps2Keyboard};
