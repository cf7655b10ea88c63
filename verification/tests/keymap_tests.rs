use ps2_keyboard::keyboard::keymap::codes;
use ps2_keyboard::keyboard::keymap::{
    get_code_ps2_set_2, get_extended_code_ps2_set_2, get_us_qwerty_char,
};
use ps2_keyboard::keyboard::{KeyCharMapping, ModifierFlags, Scancode, UnknownScancode};

#[test]
fn plain_table_knows_the_letter_q() {
    assert_eq!(get_code_ps2_set_2(0x15), Some(codes::Q));
    assert_eq!(Scancode::new(0x15, false, true).keycode(), Ok(codes::Q));
}

#[test]
fn plain_table_knows_f9() {
    assert_eq!(Scancode::new(0x01, false, true).keycode(), Ok(codes::F9));
}

#[test]
fn extended_table_is_a_space_of_its_own() {
    assert_eq!(get_code_ps2_set_2(0x11), Some(codes::LEFT_ALT));
    assert_eq!(get_extended_code_ps2_set_2(0x11), Some(codes::RIGHT_ALT));
    assert_eq!(get_code_ps2_set_2(0x14), Some(codes::LEFT_CONTROL));
    assert_eq!(get_extended_code_ps2_set_2(0x14), Some(codes::RIGHT_CONTROL));
    assert_eq!(get_extended_code_ps2_set_2(0x15), None);
    assert_eq!(get_code_ps2_set_2(0x1F), None);
}

#[test]
fn unknown_plain_scancode_carries_its_byte() {
    assert_eq!(
        Scancode::new(0x00, false, true).keycode(),
        Err(UnknownScancode::UnknownPlainScancode(0x00))
    );
    assert_eq!(
        Scancode::new(0xFF, false, false).keycode(),
        Err(UnknownScancode::UnknownPlainScancode(0xFF))
    );
}

#[test]
fn unknown_extended_scancode_carries_its_byte() {
    assert_eq!(
        Scancode::new(0x15, true, true).keycode(),
        Err(UnknownScancode::UnknownExtendedScancode(0x15))
    );
}

#[test]
fn every_known_scancode_gives_a_keycode_below_the_limit() {
    for code in 0..=255u8 {
        if let Some(keycode) = get_code_ps2_set_2(code) {
            assert!(keycode < codes::KEYCODE_LIMIT);
        }
        if let Some(keycode) = get_extended_code_ps2_set_2(code) {
            assert!(keycode < codes::KEYCODE_LIMIT);
        }
    }
}

#[test]
fn no_keycode_has_two_scancodes() {
    let mut seen = vec![false; 256];
    for code in 0..=255u8 {
        for keycode in [get_code_ps2_set_2(code), get_extended_code_ps2_set_2(code)] {
            if let Some(keycode) = keycode {
                assert!(!seen[keycode as usize]);
                seen[keycode as usize] = true;
            }
        }
    }
    assert!(seen[codes::Q as usize]);
    assert!(!seen[codes::FUNCTION as usize]);
}

#[test]
fn layout_maps_letters_digits_and_pad() {
    assert_eq!(get_us_qwerty_char(codes::Q), KeyCharMapping::Capitalized('q', 'Q'));
    assert_eq!(get_us_qwerty_char(codes::A), KeyCharMapping::Capitalized('a', 'A'));
    assert_eq!(get_us_qwerty_char(codes::KEY_1), KeyCharMapping::Shifted('1', '!'));
    assert_eq!(get_us_qwerty_char(codes::SPACE), KeyCharMapping::Single(' '));
    assert_eq!(get_us_qwerty_char(codes::NUM_PAD_7), KeyCharMapping::NumLocked('7'));
    assert_eq!(get_us_qwerty_char(codes::LEFT_SHIFT), KeyCharMapping::Empty);
    assert_eq!(get_us_qwerty_char(0xFF), KeyCharMapping::Empty);
}

#[test]
fn capitalized_is_caps_xor_shift() {
    let mapping = KeyCharMapping::Capitalized('a', 'A');
    assert_eq!(mapping.char(ModifierFlags::from_modifiers(false, false, false)), Some('a'));
    assert_eq!(mapping.char(ModifierFlags::from_modifiers(true, false, false)), Some('A'));
    assert_eq!(mapping.char(ModifierFlags::from_modifiers(false, false, true)), Some('A'));
    assert_eq!(mapping.char(ModifierFlags::from_modifiers(true, false, true)), Some('a'));
}

#[test]
fn num_locked_is_gated_by_num_lock() {
    let mapping = KeyCharMapping::NumLocked('7');
    assert_eq!(mapping.char(ModifierFlags::from_modifiers(false, false, false)), Some('7'));
    assert_eq!(mapping.char(ModifierFlags::from_modifiers(false, true, false)), None);
    assert_eq!(mapping.char(ModifierFlags::from_modifiers(true, true, true)), None);
    assert_eq!(mapping.char(ModifierFlags::from_modifiers(true, false, true)), Some('7'));
}

#[test]
fn shifted_ignores_caps_lock() {
    let mapping = KeyCharMapping::Shifted('1', '!');
    assert_eq!(mapping.char(ModifierFlags::from_modifiers(false, false, false)), Some('1'));
    assert_eq!(mapping.char(ModifierFlags::from_modifiers(true, false, false)), Some('!'));
    assert_eq!(mapping.char(ModifierFlags::from_modifiers(false, false, true)), Some('1'));
    assert_eq!(mapping.char(ModifierFlags::from_modifiers(true, true, true)), Some('!'));
}

#[test]
fn single_and_empty_ignore_modifiers() {
    for bits in 0..8u8 {
        let modifiers = ModifierFlags::from_modifiers(bits & 1 != 0, bits & 2 != 0, bits & 4 != 0);
        assert_eq!(KeyCharMapping::Single(' ').char(modifiers), Some(' '));
        assert_eq!(KeyCharMapping::Empty.char(modifiers), None);
    }
}
