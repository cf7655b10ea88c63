use ps2_keyboard::keyboard::keymap::codes;
use ps2_keyboard::keyboard::keymap::{get_code_ps2_set_2, get_extended_code_ps2_set_2};
use ps2_keyboard::keyboard::{
    KeyEvent, KeyEventType, ModifierFlags, Poll, Ps2Keyboard, Scancode, Scanset,
};

const Q: u8 = 0x15;
const A: u8 = 0x1C;
const LEFT_SHIFT: u8 = 0x12;
const RIGHT_SHIFT: u8 = 0x59;
const CAPS_LOCK: u8 = 0x58;
const NUM_LOCK: u8 = 0x77;
const SCROLL_LOCK: u8 = 0x7E;
const ESCAPE: u8 = 0x76;
const NUM_PAD_7: u8 = 0x6C;

fn make(code: u8) -> Scancode {
    Scancode::new(code, false, true)
}

fn release(code: u8) -> Scancode {
    Scancode::new(code, false, false)
}

#[test]
fn new_session_holds_nothing() {
    let keyboard = Ps2Keyboard::new();
    for keycode in 0..=255u8 {
        assert!(!keyboard.pressed(keycode));
    }
    assert!(!keyboard.num_lock());
    assert!(!keyboard.scroll_lock());
    assert!(!keyboard.caps_lock());
    assert!(!keyboard.function_lock());
}

#[test]
fn attach_asks_for_scanset_two() {
    assert_eq!(Ps2Keyboard::on_keyboard_change(), Scanset::Two);
}

#[test]
fn q_make_repeat_break() {
    let mut keyboard = Ps2Keyboard::new();
    let plain = ModifierFlags::from_modifiers(false, false, false);
    let first = keyboard.consume(make(Q));
    assert_eq!(
        first,
        Some(KeyEvent {
            keycode: codes::Q,
            char: Some('q'),
            event_type: KeyEventType::Make,
            modifiers: plain,
        })
    );
    assert!(keyboard.pressed(codes::Q));
    let second = keyboard.consume(make(Q));
    assert_eq!(
        second,
        Some(KeyEvent {
            keycode: codes::Q,
            char: Some('q'),
            event_type: KeyEventType::Repeat,
            modifiers: plain,
        })
    );
    assert!(keyboard.pressed(codes::Q));
    let third = keyboard.consume(release(Q));
    assert_eq!(
        third,
        Some(KeyEvent {
            keycode: codes::Q,
            char: Some('q'),
            event_type: KeyEventType::Break,
            modifiers: plain,
        })
    );
    assert!(!keyboard.pressed(codes::Q));
}

#[test]
fn every_key_goes_make_repeat_break() {
    for extended in [false, true] {
        for code in 0..=255u8 {
            let keycode = if extended {
                get_extended_code_ps2_set_2(code)
            } else {
                get_code_ps2_set_2(code)
            };
            if let Some(keycode) = keycode {
                let mut keyboard = Ps2Keyboard::new();
                let first = keyboard.consume(Scancode::new(code, extended, true)).unwrap();
                let second = keyboard.consume(Scancode::new(code, extended, true)).unwrap();
                assert!(keyboard.pressed(keycode));
                let third = keyboard.consume(Scancode::new(code, extended, false)).unwrap();
                assert_eq!(first.keycode, keycode);
                assert_eq!(first.event_type, KeyEventType::Make);
                assert_eq!(second.event_type, KeyEventType::Repeat);
                assert_eq!(third.event_type, KeyEventType::Break);
                assert!(!keyboard.pressed(keycode));
            }
        }
    }
}

#[test]
fn break_without_make_is_a_break() {
    let mut keyboard = Ps2Keyboard::new();
    let event = keyboard.consume(release(Q)).unwrap();
    assert_eq!(event.event_type, KeyEventType::Break);
    assert!(!keyboard.pressed(codes::Q));
}

#[test]
fn pressed_follows_the_last_transition_of_each_key() {
    let mut keyboard = Ps2Keyboard::new();
    let run = [make(Q), make(A), release(Q), make(A), make(LEFT_SHIFT), release(A), make(Q)];
    for scancode in run {
        keyboard.consume(scancode);
    }
    assert!(keyboard.pressed(codes::Q));
    assert!(!keyboard.pressed(codes::A));
    assert!(keyboard.pressed(codes::LEFT_SHIFT));
    assert!(!keyboard.pressed(codes::RIGHT_SHIFT));
}

#[test]
fn the_last_keycode_has_a_bit_of_its_own() {
    let mut keyboard = Ps2Keyboard::new();
    keyboard.consume(Scancode::new(0x7D, false, true));
    assert!(keyboard.pressed(codes::NUM_PAD_9));
    assert!(!keyboard.pressed(codes::NUM_PAD_8));
    assert!(!keyboard.pressed(0xFF));
    assert!(!keyboard.pressed(0xFE));
}

#[test]
fn caps_lock_toggles_on_make_only() {
    let mut keyboard = Ps2Keyboard::new();
    assert_eq!(keyboard.consume(make(CAPS_LOCK)).unwrap().event_type, KeyEventType::Make);
    assert!(keyboard.caps_lock());
    assert_eq!(keyboard.consume(make(CAPS_LOCK)).unwrap().event_type, KeyEventType::Repeat);
    assert!(keyboard.caps_lock());
    assert_eq!(keyboard.consume(release(CAPS_LOCK)).unwrap().event_type, KeyEventType::Break);
    assert!(keyboard.caps_lock());
    assert_eq!(keyboard.consume(make(CAPS_LOCK)).unwrap().event_type, KeyEventType::Make);
    assert!(!keyboard.caps_lock());
    keyboard.consume(release(CAPS_LOCK));
    assert!(!keyboard.caps_lock());
    assert!(!keyboard.num_lock());
    assert!(!keyboard.scroll_lock());
    assert!(!keyboard.function_lock());
}

#[test]
fn num_and_scroll_lock_toggle_their_own_bit() {
    let mut keyboard = Ps2Keyboard::new();
    keyboard.consume(make(NUM_LOCK));
    assert!(keyboard.num_lock());
    assert!(!keyboard.scroll_lock());
    keyboard.consume(release(NUM_LOCK));
    keyboard.consume(make(SCROLL_LOCK));
    assert!(keyboard.num_lock());
    assert!(keyboard.scroll_lock());
    assert!(!keyboard.caps_lock());
    keyboard.consume(release(SCROLL_LOCK));
    keyboard.consume(make(NUM_LOCK));
    assert!(!keyboard.num_lock());
    assert!(keyboard.scroll_lock());
}

#[test]
fn escape_alone_leaves_function_lock() {
    let mut keyboard = Ps2Keyboard::new();
    keyboard.consume(make(ESCAPE));
    assert!(!keyboard.function_lock());
    assert!(keyboard.pressed(codes::ESCAPE));
}

#[test]
fn handle_state_toggles_function_lock_on_escape_make() {
    let mut keyboard = Ps2Keyboard::new();
    let plain = ModifierFlags::empty();
    let escape = KeyEvent {
        keycode: codes::ESCAPE,
        char: None,
        event_type: KeyEventType::Make,
        modifiers: plain,
    };
    keyboard.handle_state(escape);
    assert!(!keyboard.function_lock());
    let caps = KeyEvent {
        keycode: codes::CAPS_LOCK,
        char: None,
        event_type: KeyEventType::Break,
        modifiers: plain,
    };
    keyboard.handle_state(caps);
    assert!(!keyboard.caps_lock());
    assert!(!keyboard.pressed(codes::CAPS_LOCK));
}

#[test]
fn shift_and_caps_lock_cancel_for_letters() {
    let mut keyboard = Ps2Keyboard::new();
    assert_eq!(keyboard.consume(make(A)).unwrap().char, Some('a'));
    keyboard.consume(release(A));
    keyboard.consume(make(LEFT_SHIFT));
    let shifted = keyboard.consume(make(A)).unwrap();
    assert_eq!(shifted.char, Some('A'));
    assert_eq!(shifted.modifiers, ModifierFlags::from_modifiers(true, false, false));
    keyboard.consume(release(A));
    keyboard.consume(make(CAPS_LOCK));
    let both = keyboard.consume(make(A)).unwrap();
    assert_eq!(both.char, Some('a'));
    assert_eq!(both.modifiers, ModifierFlags::from_modifiers(true, false, true));
    keyboard.consume(release(A));
    keyboard.consume(release(LEFT_SHIFT));
    let caps = keyboard.consume(make(A)).unwrap();
    assert_eq!(caps.char, Some('A'));
    assert_eq!(caps.modifiers, ModifierFlags::from_modifiers(false, false, true));
}

#[test]
fn right_shift_counts_as_shift() {
    let mut keyboard = Ps2Keyboard::new();
    let shift = keyboard.consume(make(RIGHT_SHIFT)).unwrap();
    assert_eq!(shift.modifiers, ModifierFlags::empty());
    assert_eq!(shift.char, None);
    assert_eq!(keyboard.consume(make(0x16)).unwrap().char, Some('!'));
}

#[test]
fn num_lock_gates_the_pad() {
    let mut keyboard = Ps2Keyboard::new();
    assert_eq!(keyboard.consume(make(NUM_PAD_7)).unwrap().char, Some('7'));
    keyboard.consume(release(NUM_PAD_7));
    keyboard.consume(make(NUM_LOCK));
    let gated = keyboard.consume(make(NUM_PAD_7)).unwrap();
    assert_eq!(gated.keycode, codes::NUM_PAD_7);
    assert_eq!(gated.char, None);
    assert_eq!(gated.modifiers, ModifierFlags::from_modifiers(false, true, false));
}

#[test]
fn the_lock_key_itself_sees_the_modifiers_before_it() {
    let mut keyboard = Ps2Keyboard::new();
    let event = keyboard.consume(make(CAPS_LOCK)).unwrap();
    assert_eq!(event.modifiers, ModifierFlags::empty());
    let next = keyboard.consume(release(CAPS_LOCK)).unwrap();
    assert_eq!(next.modifiers, ModifierFlags::from_modifiers(false, false, true));
}

#[test]
fn unknown_scancode_changes_nothing() {
    let mut keyboard = Ps2Keyboard::new();
    keyboard.consume(make(Q));
    keyboard.consume(make(CAPS_LOCK));
    assert_eq!(keyboard.consume(Scancode::new(0x00, false, true)), None);
    assert_eq!(keyboard.consume(Scancode::new(0x00, true, true)), None);
    assert_eq!(keyboard.consume(Scancode::new(0x00, false, false)), None);
    assert_eq!(keyboard.consume(Scancode::new(0xFF, true, false)), None);
    for keycode in 0..=255u8 {
        assert_eq!(
            keyboard.pressed(keycode),
            keycode == codes::Q || keycode == codes::CAPS_LOCK
        );
    }
    assert!(keyboard.caps_lock());
    assert!(!keyboard.num_lock());
    assert!(!keyboard.scroll_lock());
    assert!(!keyboard.function_lock());
}

#[test]
fn create_event_leaves_the_state() {
    let keyboard = Ps2Keyboard::new();
    let event = keyboard.create_event(&make(Q)).unwrap();
    assert_eq!(event.keycode, codes::Q);
    assert_eq!(event.char, Some('q'));
    assert_eq!(event.event_type, KeyEventType::Make);
    assert!(!keyboard.pressed(codes::Q));
    assert_eq!(keyboard.create_event(&Scancode::new(0x02, false, true)), None);
}

#[test]
fn read_event_without_a_scancode_is_quiet() {
    let mut keyboard = Ps2Keyboard::new();
    let reading: Result<Option<Scancode>, u8> = Ok(None);
    assert_eq!(keyboard.read_event(reading), Ok(Poll { event: None, port_dirty: false }));
    assert!(!keyboard.pressed(codes::Q));
}

#[test]
fn read_event_marks_the_port_dirty_on_an_unknown_scancode() {
    let mut keyboard = Ps2Keyboard::new();
    let unknown: Result<Option<Scancode>, u8> = Ok(Some(Scancode::new(0x02, false, true)));
    assert_eq!(keyboard.read_event(unknown), Ok(Poll { event: None, port_dirty: true }));
    let known: Result<Option<Scancode>, u8> = Ok(Some(make(Q)));
    let poll = keyboard.read_event(known).unwrap();
    assert!(!poll.port_dirty);
    assert_eq!(poll.event.unwrap().keycode, codes::Q);
    assert!(keyboard.pressed(codes::Q));
}

#[test]
fn read_event_hands_a_transport_failure_on() {
    let mut keyboard = Ps2Keyboard::new();
    keyboard.consume(make(Q));
    let failed: Result<Option<Scancode>, u8> = Err(7);
    assert_eq!(keyboard.read_event(failed), Err(7));
    assert!(keyboard.pressed(codes::Q));
    assert!(!keyboard.caps_lock());
}
