//! Keycodes: one byte for each key, numbered densely in layout order and
//! independent of what the hardware sends.

use vstd::prelude::*;

verus! {

/// A key, identified apart from the scancode that reported it.
pub type Keycode = u8;

/// One more than the largest keycode: every keycode is below it.
pub const KEYCODE_LIMIT: u8 = 0xFF;

/// The escape key.
pub const ESCAPE: Keycode = 0x00;

/// The function key `F1`.
pub const F1: Keycode = 0x01;

/// The function key `F2`.
pub const F2: Keycode = 0x02;

/// The function key `F3`.
pub const F3: Keycode = 0x03;

/// The function key `F4`.
pub const F4: Keycode = 0x04;

/// The function key `F5`.
pub const F5: Keycode = 0x05;

/// The function key `F6`.
pub const F6: Keycode = 0x06;

/// The function key `F7`.
pub const F7: Keycode = 0x07;

/// The function key `F8`.
pub const F8: Keycode = 0x08;

/// The function key `F9`.
pub const F9: Keycode = 0x09;

/// The function key `F10`.
pub const F10: Keycode = 0x0A;

/// The function key `F11`.
pub const F11: Keycode = 0x0B;

/// The function key `F12`.
pub const F12: Keycode = 0x0C;

/// The scroll lock key.
pub const SCROLL_LOCK: Keycode = 0x0D;

/// The back tick key.
pub const BACK_TICK: Keycode = 0x0E;

/// The `1` key of the number row.
pub const KEY_1: Keycode = 0x0F;

/// The `2` key of the number row.
pub const KEY_2: Keycode = 0x10;

/// The `3` key of the number row.
pub const KEY_3: Keycode = 0x11;

/// The `4` key of the number row.
pub const KEY_4: Keycode = 0x12;

/// The `5` key of the number row.
pub const KEY_5: Keycode = 0x13;

/// The `6` key of the number row.
pub const KEY_6: Keycode = 0x14;

/// The `7` key of the number row.
pub const KEY_7: Keycode = 0x15;

/// The `8` key of the number row.
pub const KEY_8: Keycode = 0x16;

/// The `9` key of the number row.
pub const KEY_9: Keycode = 0x17;

/// The `0` key of the number row.
pub const KEY_0: Keycode = 0x18;

/// The minus key.
pub const MINUS: Keycode = 0x19;

/// The equals key.
pub const EQUALS: Keycode = 0x1A;

/// The backspace key.
pub const BACKSPACE: Keycode = 0x1B;

/// The tab key.
pub const TAB: Keycode = 0x1C;

/// The letter `Q`.
pub const Q: Keycode = 0x1D;

/// The letter `W`.
pub const W: Keycode = 0x1E;

/// The letter `E`.
pub const E: Keycode = 0x1F;

/// The letter `R`.
pub const R: Keycode = 0x20;

/// The letter `T`.
pub const T: Keycode = 0x21;

/// The letter `Y`.
pub const Y: Keycode = 0x22;

/// The letter `U`.
pub const U: Keycode = 0x23;

/// The letter `I`.
pub const I: Keycode = 0x24;

/// The letter `O`.
pub const O: Keycode = 0x25;

/// The letter `P`.
pub const P: Keycode = 0x26;

/// The left bracket key.
pub const LEFT_BRACKET: Keycode = 0x27;

/// The right bracket key.
pub const RIGHT_BRACKET: Keycode = 0x28;

/// The backslash key.
pub const BACKSLASH: Keycode = 0x29;

/// The caps lock key.
pub const CAPS_LOCK: Keycode = 0x2A;

/// The letter `A`.
pub const A: Keycode = 0x2B;

/// The letter `S`.
pub const S: Keycode = 0x2C;

/// The letter `D`.
pub const D: Keycode = 0x2D;

/// The letter `F`.
pub const F: Keycode = 0x2E;

/// The letter `G`.
pub const G: Keycode = 0x2F;

/// The letter `H`.
pub const H: Keycode = 0x30;

/// The letter `J`.
pub const J: Keycode = 0x31;

/// The letter `K`.
pub const K: Keycode = 0x32;

/// The letter `L`.
pub const L: Keycode = 0x33;

/// The semicolon key.
pub const SEMICOLON: Keycode = 0x34;

/// The apostrophe key.
pub const APOSTROPHE: Keycode = 0x35;

/// The enter key.
pub const ENTER: Keycode = 0x36;

/// The left shift key.
pub const LEFT_SHIFT: Keycode = 0x37;

/// The letter `Z`.
pub const Z: Keycode = 0x38;

/// The letter `X`.
pub const X: Keycode = 0x39;

/// The letter `C`.
pub const C: Keycode = 0x3A;

/// The letter `V`.
pub const V: Keycode = 0x3B;

/// The letter `B`.
pub const B: Keycode = 0x3C;

/// The letter `N`.
pub const N: Keycode = 0x3D;

/// The letter `M`.
pub const M: Keycode = 0x3E;

/// The comma key.
pub const COMMA: Keycode = 0x3F;

/// The period key.
pub const PERIOD: Keycode = 0x40;

/// The forward slash key.
pub const FORWARD_SLASH: Keycode = 0x41;

/// The right shift key.
pub const RIGHT_SHIFT: Keycode = 0x42;

/// The left control key.
pub const LEFT_CONTROL: Keycode = 0x43;

/// The function key.
pub const FUNCTION: Keycode = 0x44;

/// The left win key.
pub const LEFT_WIN: Keycode = 0x45;

/// The left alt key.
pub const LEFT_ALT: Keycode = 0x46;

/// The space key.
pub const SPACE: Keycode = 0x47;

/// The right alt key.
pub const RIGHT_ALT: Keycode = 0x48;

/// The right win key.
pub const RIGHT_WIN: Keycode = 0x49;

/// The menu key.
pub const MENU: Keycode = 0x4A;

/// The right control key.
pub const RIGHT_CONTROL: Keycode = 0x4B;

/// The insert key.
pub const INSERT: Keycode = 0x4C;

/// The delete key.
pub const DELETE: Keycode = 0x4D;

/// The home key.
pub const HOME: Keycode = 0x4E;

/// The end key.
pub const END: Keycode = 0x4F;

/// The page up key.
pub const PAGE_UP: Keycode = 0x50;

/// The page down key.
pub const PAGE_DOWN: Keycode = 0x51;

/// The up arrow key.
pub const UP_ARROW: Keycode = 0x52;

/// The left arrow key.
pub const LEFT_ARROW: Keycode = 0x53;

/// The down arrow key.
pub const DOWN_ARROW: Keycode = 0x54;

/// The right arrow key.
pub const RIGHT_ARROW: Keycode = 0x55;

/// The num lock key.
pub const NUM_LOCK: Keycode = 0x56;

/// The `forward slash` key of the numeric pad.
pub const NUM_PAD_FORWARD_SLASH: Keycode = 0x57;

/// The `asterisk` key of the numeric pad.
pub const NUM_PAD_ASTERISK: Keycode = 0x58;

/// The `minus` key of the numeric pad.
pub const NUM_PAD_MINUS: Keycode = 0x59;

/// The `plus` key of the numeric pad.
pub const NUM_PAD_PLUS: Keycode = 0x5A;

/// The `enter` key of the numeric pad.
pub const NUM_PAD_ENTER: Keycode = 0x5B;

/// The `period` key of the numeric pad.
pub const NUM_PAD_PERIOD: Keycode = 0x5C;

/// The `0` key of the numeric pad.
pub const NUM_PAD_0: Keycode = 0x5D;

/// The `1` key of the numeric pad.
pub const NUM_PAD_1: Keycode = 0x5E;

/// The `2` key of the numeric pad.
pub const NUM_PAD_2: Keycode = 0x5F;

/// The `3` key of the numeric pad.
pub const NUM_PAD_3: Keycode = 0x60;

/// The `4` key of the numeric pad.
pub const NUM_PAD_4: Keycode = 0x61;

/// The `5` key of the numeric pad.
pub const NUM_PAD_5: Keycode = 0x62;

/// The `6` key of the numeric pad.
pub const NUM_PAD_6: Keycode = 0x63;

/// The `7` key of the numeric pad.
pub const NUM_PAD_7: Keycode = 0x64;

/// The `8` key of the numeric pad.
pub const NUM_PAD_8: Keycode = 0x65;

/// The `9` key of the numeric pad.
pub const NUM_PAD_9: Keycode = 0x66;

} // verus!
