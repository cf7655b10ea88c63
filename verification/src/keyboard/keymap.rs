//! Tables of the one layout this driver knows: scan code set 2 of a PS/2
//! keyboard to keycodes, and keycodes to the characters of a US QWERTY
//! layout.

use vstd::prelude::*;
use super::mapping::KeyCharMapping;
use self::codes::Keycode;

pub mod codes;

verus! {

/// The keycode that a scancode of the plain space stands for, if any.
pub open spec fn plain_code(scancode: u8) -> Option<Keycode> {
    match scancode {
        0x01 => Some(codes::F9),
        0x03 => Some(codes::F5),
        0x04 => Some(codes::F3),
        0x05 => Some(codes::F1),
        0x06 => Some(codes::F2),
        0x07 => Some(codes::F12),
        0x09 => Some(codes::F10),
        0x0A => Some(codes::F8),
        0x0B => Some(codes::F6),
        0x0C => Some(codes::F4),
        0x0D => Some(codes::TAB),
        0x0E => Some(codes::BACK_TICK),
        0x11 => Some(codes::LEFT_ALT),
        0x12 => Some(codes::LEFT_SHIFT),
        0x14 => Some(codes::LEFT_CONTROL),
        0x15 => Some(codes::Q),
        0x16 => Some(codes::KEY_1),
        0x1A => Some(codes::Z),
        0x1B => Some(codes::S),
        0x1C => Some(codes::A),
        0x1D => Some(codes::W),
        0x1E => Some(codes::KEY_2),
        0x21 => Some(codes::C),
        0x22 => Some(codes::X),
        0x23 => Some(codes::D),
        0x24 => Some(codes::E),
        0x25 => Some(codes::KEY_4),
        0x26 => Some(codes::KEY_3),
        0x29 => Some(codes::SPACE),
        0x2A => Some(codes::V),
        0x2B => Some(codes::F),
        0x2C => Some(codes::T),
        0x2D => Some(codes::R),
        0x2E => Some(codes::KEY_5),
        0x31 => Some(codes::N),
        0x32 => Some(codes::B),
        0x33 => Some(codes::H),
        0x34 => Some(codes::G),
        0x35 => Some(codes::Y),
        0x36 => Some(codes::KEY_6),
        0x3A => Some(codes::M),
        0x3B => Some(codes::J),
        0x3C => Some(codes::U),
        0x3D => Some(codes::KEY_7),
        0x3E => Some(codes::KEY_8),
        0x41 => Some(codes::COMMA),
        0x42 => Some(codes::K),
        0x43 => Some(codes::I),
        0x44 => Some(codes::O),
        0x45 => Some(codes::KEY_0),
        0x46 => Some(codes::KEY_9),
        0x49 => Some(codes::PERIOD),
        0x4A => Some(codes::FORWARD_SLASH),
        0x4B => Some(codes::L),
        0x4C => Some(codes::SEMICOLON),
        0x4D => Some(codes::P),
        0x4E => Some(codes::MINUS),
        0x52 => Some(codes::APOSTROPHE),
        0x54 => Some(codes::LEFT_BRACKET),
        0x55 => Some(codes::EQUALS),
        0x58 => Some(codes::CAPS_LOCK),
        0x59 => Some(codes::RIGHT_SHIFT),
        0x5A => Some(codes::ENTER),
        0x5B => Some(codes::RIGHT_BRACKET),
        0x5D => Some(codes::BACKSLASH),
        0x66 => Some(codes::BACKSPACE),
        0x69 => Some(codes::NUM_PAD_1),
        0x6B => Some(codes::NUM_PAD_4),
        0x6C => Some(codes::NUM_PAD_7),
        0x70 => Some(codes::NUM_PAD_0),
        0x71 => Some(codes::NUM_PAD_PERIOD),
        0x72 => Some(codes::NUM_PAD_2),
        0x73 => Some(codes::NUM_PAD_5),
        0x74 => Some(codes::NUM_PAD_6),
        0x75 => Some(codes::NUM_PAD_8),
        0x76 => Some(codes::ESCAPE),
        0x77 => Some(codes::NUM_LOCK),
        0x78 => Some(codes::F11),
        0x79 => Some(codes::NUM_PAD_PLUS),
        0x7A => Some(codes::NUM_PAD_3),
        0x7B => Some(codes::NUM_PAD_MINUS),
        0x7C => Some(codes::NUM_PAD_ASTERISK),
        0x7D => Some(codes::NUM_PAD_9),
        0x7E => Some(codes::SCROLL_LOCK),
        0x83 => Some(codes::F7),
        _ => None,
    }
}

/// The keycode that a scancode of the extended space stands for, if any.
pub open spec fn extended_code(scancode: u8) -> Option<Keycode> {
    match scancode {
        0x11 => Some(codes::RIGHT_ALT),
        0x14 => Some(codes::RIGHT_CONTROL),
        0x1F => Some(codes::LEFT_WIN),
        0x27 => Some(codes::RIGHT_WIN),
        0x2F => Some(codes::MENU),
        0x4A => Some(codes::NUM_PAD_FORWARD_SLASH),
        0x5A => Some(codes::NUM_PAD_ENTER),
        0x69 => Some(codes::END),
        0x6B => Some(codes::LEFT_ARROW),
        0x6C => Some(codes::HOME),
        0x70 => Some(codes::INSERT),
        0x71 => Some(codes::DELETE),
        0x72 => Some(codes::DOWN_ARROW),
        0x74 => Some(codes::RIGHT_ARROW),
        0x75 => Some(codes::UP_ARROW),
        0x7A => Some(codes::PAGE_DOWN),
        0x7D => Some(codes::PAGE_UP),
        _ => None,
    }
}

/// The character policy of a key on a US QWERTY layout.
pub open spec fn us_qwerty_char(keycode: Keycode) -> KeyCharMapping {
    if keycode == codes::BACK_TICK {
        KeyCharMapping::Shifted('`', '~')
    } else if keycode == codes::KEY_1 {
        KeyCharMapping::Shifted('1', '!')
    } else if keycode == codes::KEY_2 {
        KeyCharMapping::Shifted('2', '@')
    } else if keycode == codes::KEY_3 {
        KeyCharMapping::Shifted('3', '#')
    } else if keycode == codes::KEY_4 {
        KeyCharMapping::Shifted('4', '$')
    } else if keycode == codes::KEY_5 {
        KeyCharMapping::Shifted('5', '%')
    } else if keycode == codes::KEY_6 {
        KeyCharMapping::Shifted('6', '^')
    } else if keycode == codes::KEY_7 {
        KeyCharMapping::Shifted('7', '&')
    } else if keycode == codes::KEY_8 {
        KeyCharMapping::Shifted('8', '*')
    } else if keycode == codes::KEY_9 {
        KeyCharMapping::Shifted('9', '(')
    } else if keycode == codes::KEY_0 {
        KeyCharMapping::Shifted('0', ')')
    } else if keycode == codes::MINUS {
        KeyCharMapping::Shifted('-', '_')
    } else if keycode == codes::EQUALS {
        KeyCharMapping::Shifted('=', '+')
    } else if keycode == codes::TAB {
        KeyCharMapping::Single('\t')
    } else if keycode == codes::Q {
        KeyCharMapping::Capitalized('q', 'Q')
    } else if keycode == codes::W {
        KeyCharMapping::Capitalized('w', 'W')
    } else if keycode == codes::E {
        KeyCharMapping::Capitalized('e', 'E')
    } else if keycode == codes::R {
        KeyCharMapping::Capitalized('r', 'R')
    } else if keycode == codes::T {
        KeyCharMapping::Capitalized('t', 'T')
    } else if keycode == codes::Y {
        KeyCharMapping::Capitalized('y', 'Y')
    } else if keycode == codes::U {
        KeyCharMapping::Capitalized('u', 'U')
    } else if keycode == codes::I {
        KeyCharMapping::Capitalized('i', 'I')
    } else if keycode == codes::O {
        KeyCharMapping::Capitalized('o', 'O')
    } else if keycode == codes::P {
        KeyCharMapping::Capitalized('p', 'P')
    } else if keycode == codes::LEFT_BRACKET {
        KeyCharMapping::Shifted('[', '{')
    } else if keycode == codes::RIGHT_BRACKET {
        KeyCharMapping::Shifted(']', '}')
    } else if keycode == codes::BACKSLASH {
        KeyCharMapping::Shifted('\\', '|')
    } else if keycode == codes::A {
        KeyCharMapping::Capitalized('a', 'A')
    } else if keycode == codes::S {
        KeyCharMapping::Capitalized('s', 'S')
    } else if keycode == codes::D {
        KeyCharMapping::Capitalized('d', 'D')
    } else if keycode == codes::F {
        KeyCharMapping::Capitalized('f', 'F')
    } else if keycode == codes::G {
        KeyCharMapping::Capitalized('g', 'G')
    } else if keycode == codes::H {
        KeyCharMapping::Capitalized('h', 'H')
    } else if keycode == codes::J {
        KeyCharMapping::Capitalized('j', 'J')
    } else if keycode == codes::K {
        KeyCharMapping::Capitalized('k', 'K')
    } else if keycode == codes::L {
        KeyCharMapping::Capitalized('l', 'L')
    } else if keycode == codes::SEMICOLON {
        KeyCharMapping::Shifted(';', ':')
    } else if keycode == codes::APOSTROPHE {
        KeyCharMapping::Shifted('\'', '"')
    } else if keycode == codes::ENTER {
        KeyCharMapping::Single('\n')
    } else if keycode == codes::Z {
        KeyCharMapping::Capitalized('z', 'Z')
    } else if keycode == codes::X {
        KeyCharMapping::Capitalized('x', 'X')
    } else if keycode == codes::C {
        KeyCharMapping::Capitalized('c', 'C')
    } else if keycode == codes::V {
        KeyCharMapping::Capitalized('v', 'V')
    } else if keycode == codes::B {
        KeyCharMapping::Capitalized('b', 'B')
    } else if keycode == codes::N {
        KeyCharMapping::Capitalized('n', 'N')
    } else if keycode == codes::M {
        KeyCharMapping::Capitalized('m', 'M')
    } else if keycode == codes::COMMA {
        KeyCharMapping::Shifted(',', '<')
    } else if keycode == codes::PERIOD {
        KeyCharMapping::Shifted('.', '>')
    } else if keycode == codes::FORWARD_SLASH {
        KeyCharMapping::Shifted('/', '?')
    } else if keycode == codes::SPACE {
        KeyCharMapping::Single(' ')
    } else if keycode == codes::NUM_PAD_FORWARD_SLASH {
        KeyCharMapping::Single('/')
    } else if keycode == codes::NUM_PAD_ASTERISK {
        KeyCharMapping::Single('*')
    } else if keycode == codes::NUM_PAD_MINUS {
        KeyCharMapping::Single('-')
    } else if keycode == codes::NUM_PAD_PLUS {
        KeyCharMapping::Single('+')
    } else if keycode == codes::NUM_PAD_ENTER {
        KeyCharMapping::Single('\n')
    } else if keycode == codes::NUM_PAD_PERIOD {
        KeyCharMapping::NumLocked('.')
    } else if keycode == codes::NUM_PAD_0 {
        KeyCharMapping::NumLocked('0')
    } else if keycode == codes::NUM_PAD_1 {
        KeyCharMapping::NumLocked('1')
    } else if keycode == codes::NUM_PAD_2 {
        KeyCharMapping::NumLocked('2')
    } else if keycode == codes::NUM_PAD_3 {
        KeyCharMapping::NumLocked('3')
    } else if keycode == codes::NUM_PAD_4 {
        KeyCharMapping::NumLocked('4')
    } else if keycode == codes::NUM_PAD_5 {
        KeyCharMapping::NumLocked('5')
    } else if keycode == codes::NUM_PAD_6 {
        KeyCharMapping::NumLocked('6')
    } else if keycode == codes::NUM_PAD_7 {
        KeyCharMapping::NumLocked('7')
    } else if keycode == codes::NUM_PAD_8 {
        KeyCharMapping::NumLocked('8')
    } else if keycode == codes::NUM_PAD_9 {
        KeyCharMapping::NumLocked('9')
    } else {
        KeyCharMapping::Empty
    }
}

/// Gets the keycode for a scancode of the plain space of scan code set 2.
pub fn get_code_ps2_set_2(scancode: u8) -> (keycode: Option<Keycode>)
    ensures
        keycode == plain_code(scancode),
        keycode matches Some(k) ==> k < codes::KEYCODE_LIMIT,
{
    match scancode {
        0x01 => Some(codes::F9),
        0x03 => Some(codes::F5),
        0x04 => Some(codes::F3),
        0x05 => Some(codes::F1),
        0x06 => Some(codes::F2),
        0x07 => Some(codes::F12),
        0x09 => Some(codes::F10),
        0x0A => Some(codes::F8),
        0x0B => Some(codes::F6),
        0x0C => Some(codes::F4),
        0x0D => Some(codes::TAB),
        0x0E => Some(codes::BACK_TICK),
        0x11 => Some(codes::LEFT_ALT),
        0x12 => Some(codes::LEFT_SHIFT),
        0x14 => Some(codes::LEFT_CONTROL),
        0x15 => Some(codes::Q),
        0x16 => Some(codes::KEY_1),
        0x1A => Some(codes::Z),
        0x1B => Some(codes::S),
        0x1C => Some(codes::A),
        0x1D => Some(codes::W),
        0x1E => Some(codes::KEY_2),
        0x21 => Some(codes::C),
        0x22 => Some(codes::X),
        0x23 => Some(codes::D),
        0x24 => Some(codes::E),
        0x25 => Some(codes::KEY_4),
        0x26 => Some(codes::KEY_3),
        0x29 => Some(codes::SPACE),
        0x2A => Some(codes::V),
        0x2B => Some(codes::F),
        0x2C => Some(codes::T),
        0x2D => Some(codes::R),
        0x2E => Some(codes::KEY_5),
        0x31 => Some(codes::N),
        0x32 => Some(codes::B),
        0x33 => Some(codes::H),
        0x34 => Some(codes::G),
        0x35 => Some(codes::Y),
        0x36 => Some(codes::KEY_6),
        0x3A => Some(codes::M),
        0x3B => Some(codes::J),
        0x3C => Some(codes::U),
        0x3D => Some(codes::KEY_7),
        0x3E => Some(codes::KEY_8),
        0x41 => Some(codes::COMMA),
        0x42 => Some(codes::K),
        0x43 => Some(codes::I),
        0x44 => Some(codes::O),
        0x45 => Some(codes::KEY_0),
        0x46 => Some(codes::KEY_9),
        0x49 => Some(codes::PERIOD),
        0x4A => Some(codes::FORWARD_SLASH),
        0x4B => Some(codes::L),
        0x4C => Some(codes::SEMICOLON),
        0x4D => Some(codes::P),
        0x4E => Some(codes::MINUS),
        0x52 => Some(codes::APOSTROPHE),
        0x54 => Some(codes::LEFT_BRACKET),
        0x55 => Some(codes::EQUALS),
        0x58 => Some(codes::CAPS_LOCK),
        0x59 => Some(codes::RIGHT_SHIFT),
        0x5A => Some(codes::ENTER),
        0x5B => Some(codes::RIGHT_BRACKET),
        0x5D => Some(codes::BACKSLASH),
        0x66 => Some(codes::BACKSPACE),
        0x69 => Some(codes::NUM_PAD_1),
        0x6B => Some(codes::NUM_PAD_4),
        0x6C => Some(codes::NUM_PAD_7),
        0x70 => Some(codes::NUM_PAD_0),
        0x71 => Some(codes::NUM_PAD_PERIOD),
        0x72 => Some(codes::NUM_PAD_2),
        0x73 => Some(codes::NUM_PAD_5),
        0x74 => Some(codes::NUM_PAD_6),
        0x75 => Some(codes::NUM_PAD_8),
        0x76 => Some(codes::ESCAPE),
        0x77 => Some(codes::NUM_LOCK),
        0x78 => Some(codes::F11),
        0x79 => Some(codes::NUM_PAD_PLUS),
        0x7A => Some(codes::NUM_PAD_3),
        0x7B => Some(codes::NUM_PAD_MINUS),
        0x7C => Some(codes::NUM_PAD_ASTERISK),
        0x7D => Some(codes::NUM_PAD_9),
        0x7E => Some(codes::SCROLL_LOCK),
        0x83 => Some(codes::F7),
        _ => None,
    }
}

/// Gets the keycode for a scancode of the extended space of scan code set 2,
/// that is one that followed the prefix byte `0xE0`.
pub fn get_extended_code_ps2_set_2(scancode: u8) -> (keycode: Option<Keycode>)
    ensures
        keycode == extended_code(scancode),
        keycode matches Some(k) ==> k < codes::KEYCODE_LIMIT,
{
    match scancode {
        0x11 => Some(codes::RIGHT_ALT),
        0x14 => Some(codes::RIGHT_CONTROL),
        0x1F => Some(codes::LEFT_WIN),
        0x27 => Some(codes::RIGHT_WIN),
        0x2F => Some(codes::MENU),
        0x4A => Some(codes::NUM_PAD_FORWARD_SLASH),
        0x5A => Some(codes::NUM_PAD_ENTER),
        0x69 => Some(codes::END),
        0x6B => Some(codes::LEFT_ARROW),
        0x6C => Some(codes::HOME),
        0x70 => Some(codes::INSERT),
        0x71 => Some(codes::DELETE),
        0x72 => Some(codes::DOWN_ARROW),
        0x74 => Some(codes::RIGHT_ARROW),
        0x75 => Some(codes::UP_ARROW),
        0x7A => Some(codes::PAGE_DOWN),
        0x7D => Some(codes::PAGE_UP),
        _ => None,
    }
}

/// Gets the character policy of a key on a US QWERTY layout. Keys that
/// produce no character, and bytes that are no keycode, map to
/// [`KeyCharMapping::Empty`].
pub fn get_us_qwerty_char(keycode: Keycode) -> (mapping: KeyCharMapping)
    ensures
        mapping == us_qwerty_char(keycode),
{
    if keycode == codes::BACK_TICK {
        KeyCharMapping::Shifted('`', '~')
    } else if keycode == codes::KEY_1 {
        KeyCharMapping::Shifted('1', '!')
    } else if keycode == codes::KEY_2 {
        KeyCharMapping::Shifted('2', '@')
    } else if keycode == codes::KEY_3 {
        KeyCharMapping::Shifted('3', '#')
    } else if keycode == codes::KEY_4 {
        KeyCharMapping::Shifted('4', '$')
    } else if keycode == codes::KEY_5 {
        KeyCharMapping::Shifted('5', '%')
    } else if keycode == codes::KEY_6 {
        KeyCharMapping::Shifted('6', '^')
    } else if keycode == codes::KEY_7 {
        KeyCharMapping::Shifted('7', '&')
    } else if keycode == codes::KEY_8 {
        KeyCharMapping::Shifted('8', '*')
    } else if keycode == codes::KEY_9 {
        KeyCharMapping::Shifted('9', '(')
    } else if keycode == codes::KEY_0 {
        KeyCharMapping::Shifted('0', ')')
    } else if keycode == codes::MINUS {
        KeyCharMapping::Shifted('-', '_')
    } else if keycode == codes::EQUALS {
        KeyCharMapping::Shifted('=', '+')
    } else if keycode == codes::TAB {
        KeyCharMapping::Single('\t')
    } else if keycode == codes::Q {
        KeyCharMapping::Capitalized('q', 'Q')
    } else if keycode == codes::W {
        KeyCharMapping::Capitalized('w', 'W')
    } else if keycode == codes::E {
        KeyCharMapping::Capitalized('e', 'E')
    } else if keycode == codes::R {
        KeyCharMapping::Capitalized('r', 'R')
    } else if keycode == codes::T {
        KeyCharMapping::Capitalized('t', 'T')
    } else if keycode == codes::Y {
        KeyCharMapping::Capitalized('y', 'Y')
    } else if keycode == codes::U {
        KeyCharMapping::Capitalized('u', 'U')
    } else if keycode == codes::I {
        KeyCharMapping::Capitalized('i', 'I')
    } else if keycode == codes::O {
        KeyCharMapping::Capitalized('o', 'O')
    } else if keycode == codes::P {
        KeyCharMapping::Capitalized('p', 'P')
    } else if keycode == codes::LEFT_BRACKET {
        KeyCharMapping::Shifted('[', '{')
    } else if keycode == codes::RIGHT_BRACKET {
        KeyCharMapping::Shifted(']', '}')
    } else if keycode == codes::BACKSLASH {
        KeyCharMapping::Shifted('\\', '|')
    } else if keycode == codes::A {
        KeyCharMapping::Capitalized('a', 'A')
    } else if keycode == codes::S {
        KeyCharMapping::Capitalized('s', 'S')
    } else if keycode == codes::D {
        KeyCharMapping::Capitalized('d', 'D')
    } else if keycode == codes::F {
        KeyCharMapping::Capitalized('f', 'F')
    } else if keycode == codes::G {
        KeyCharMapping::Capitalized('g', 'G')
    } else if keycode == codes::H {
        KeyCharMapping::Capitalized('h', 'H')
    } else if keycode == codes::J {
        KeyCharMapping::Capitalized('j', 'J')
    } else if keycode == codes::K {
        KeyCharMapping::Capitalized('k', 'K')
    } else if keycode == codes::L {
        KeyCharMapping::Capitalized('l', 'L')
    } else if keycode == codes::SEMICOLON {
        KeyCharMapping::Shifted(';', ':')
    } else if keycode == codes::APOSTROPHE {
        KeyCharMapping::Shifted('\'', '"')
    } else if keycode == codes::ENTER {
        KeyCharMapping::Single('\n')
    } else if keycode == codes::Z {
        KeyCharMapping::Capitalized('z', 'Z')
    } else if keycode == codes::X {
        KeyCharMapping::Capitalized('x', 'X')
    } else if keycode == codes::C {
        KeyCharMapping::Capitalized('c', 'C')
    } else if keycode == codes::V {
        KeyCharMapping::Capitalized('v', 'V')
    } else if keycode == codes::B {
        KeyCharMapping::Capitalized('b', 'B')
    } else if keycode == codes::N {
        KeyCharMapping::Capitalized('n', 'N')
    } else if keycode == codes::M {
        KeyCharMapping::Capitalized('m', 'M')
    } else if keycode == codes::COMMA {
        KeyCharMapping::Shifted(',', '<')
    } else if keycode == codes::PERIOD {
        KeyCharMapping::Shifted('.', '>')
    } else if keycode == codes::FORWARD_SLASH {
        KeyCharMapping::Shifted('/', '?')
    } else if keycode == codes::SPACE {
        KeyCharMapping::Single(' ')
    } else if keycode == codes::NUM_PAD_FORWARD_SLASH {
        KeyCharMapping::Single('/')
    } else if keycode == codes::NUM_PAD_ASTERISK {
        KeyCharMapping::Single('*')
    } else if keycode == codes::NUM_PAD_MINUS {
        KeyCharMapping::Single('-')
    } else if keycode == codes::NUM_PAD_PLUS {
        KeyCharMapping::Single('+')
    } else if keycode == codes::NUM_PAD_ENTER {
        KeyCharMapping::Single('\n')
    } else if keycode == codes::NUM_PAD_PERIOD {
        KeyCharMapping::NumLocked('.')
    } else if keycode == codes::NUM_PAD_0 {
        KeyCharMapping::NumLocked('0')
    } else if keycode == codes::NUM_PAD_1 {
        KeyCharMapping::NumLocked('1')
    } else if keycode == codes::NUM_PAD_2 {
        KeyCharMapping::NumLocked('2')
    } else if keycode == codes::NUM_PAD_3 {
        KeyCharMapping::NumLocked('3')
    } else if keycode == codes::NUM_PAD_4 {
        KeyCharMapping::NumLocked('4')
    } else if keycode == codes::NUM_PAD_5 {
        KeyCharMapping::NumLocked('5')
    } else if keycode == codes::NUM_PAD_6 {
        KeyCharMapping::NumLocked('6')
    } else if keycode == codes::NUM_PAD_7 {
        KeyCharMapping::NumLocked('7')
    } else if keycode == codes::NUM_PAD_8 {
        KeyCharMapping::NumLocked('8')
    } else if keycode == codes::NUM_PAD_9 {
        KeyCharMapping::NumLocked('9')
    } else {
        KeyCharMapping::Empty
    }
}

/// Every keycode that the tables hand out is below the limit, so it has a
/// bit of its own in a set of that many bits.
pub proof fn lemma_codes_in_range(scancode: u8)
    ensures
        plain_code(scancode) matches Some(k) ==> k < codes::KEYCODE_LIMIT,
        extended_code(scancode) matches Some(k) ==> k < codes::KEYCODE_LIMIT,
{
}

/// No key is reported by two scancodes: within a space two different bytes
/// never give the same keycode, and no keycode is given by both spaces.
pub proof fn lemma_tables_injective(a: u8, b: u8)
    ensures
        plain_code(a).is_some() && plain_code(a) == plain_code(b) ==> a == b,
        extended_code(a).is_some() && extended_code(a) == extended_code(b) ==> a == b,
        plain_code(a).is_some() ==> plain_code(a) != extended_code(b),
{
}

} // verus!
