//! What holds of every keyboard session, proved over the state machine of
//! [`KeyboardState`].

use vstd::prelude::*;
use super::event::KeyEventType;
use super::keymap::codes;
use super::keymap::codes::Keycode;
use super::model::KeyboardState;
use super::scancode::Scancode;

verus! {

/// The last scancode of a run that belongs to `keycode`: `Some(true)` where
/// it was a make, `Some(false)` where it was a break, `None` where the run
/// holds no scancode of that key.
pub open spec fn last_transition(scancodes: Seq<Scancode>, keycode: Keycode) -> Option<bool>
    decreases scancodes.len(),
{
    if scancodes.len() == 0 {
        None
    } else if scancodes.last().reports(keycode) {
        Some(scancodes.last().make)
    } else {
        last_transition(scancodes.drop_last(), keycode)
    }
}

/// A key that is not held gives a make when it is pressed; pressed again
/// before any release it gives a repeat; its release then gives a break and
/// leaves it not held. The second and third hold whether or not the key was
/// held at the start.
pub proof fn lemma_make_repeat_break(state: KeyboardState, code: u8, extended: bool)
    requires
        (Scancode { code, extended, make: true }).spec_keycode().is_ok(),
    ensures
        ({
            let press = Scancode { code, extended, make: true };
            let release = Scancode { code, extended, make: false };
            let keycode = press.spec_keycode().unwrap();
            let first = state;
            let second = first.step(press);
            let third = second.step(press);
            let last = third.step(release);
            &&& first.event(press).is_some()
            &&& second.event(press).is_some()
            &&& third.event(release).is_some()
            &&& first.event(press).unwrap().keycode == keycode
            &&& second.event(press).unwrap().keycode == keycode
            &&& third.event(release).unwrap().keycode == keycode
            &&& !state.pressed.contains(keycode) ==> first.event(press).unwrap().event_type
                == KeyEventType::Make
            &&& second.event(press).unwrap().event_type == KeyEventType::Repeat
            &&& third.event(release).unwrap().event_type == KeyEventType::Break
            &&& second.pressed.contains(keycode)
            &&& third.pressed.contains(keycode)
            &&& !last.pressed.contains(keycode)
        }),
{
}

/// After any run of scancodes a key is held if and only if the last
/// scancode of that key in the run was a make; a key that the run does not
/// mention is held as it was before the run.
pub proof fn lemma_pressed_follows_last_transition(
    state: KeyboardState,
    scancodes: Seq<Scancode>,
    keycode: Keycode,
)
    ensures
        state.run(scancodes).pressed.contains(keycode) == match last_transition(
            scancodes,
            keycode,
        ) {
            Some(make) => make,
            None => state.pressed.contains(keycode),
        },
    decreases scancodes.len(),
{
    if scancodes.len() > 0 {
        lemma_pressed_follows_last_transition(state, scancodes.drop_last(), keycode);
    }
}

/// In a session that starts with no key held, after any run of scancodes a
/// key is held if and only if the run holds a scancode of that key and the
/// last such scancode was a make.
pub proof fn lemma_pressed_consistent(scancodes: Seq<Scancode>, keycode: Keycode)
    ensures
        KeyboardState::initial().run(scancodes).pressed.contains(keycode) == (last_transition(
            scancodes,
            keycode,
        ) == Some(true)),
{
    lemma_pressed_follows_last_transition(KeyboardState::initial(), scancodes, keycode);
}

/// A scancode of the caps lock key flips caps lock where it is a make, and
/// changes no lock where it is a break or a repeat. The other three locks
/// stay as they are in either case.
pub proof fn lemma_caps_lock_toggles(state: KeyboardState, scancode: Scancode)
    requires
        scancode.reports(codes::CAPS_LOCK),
    ensures
        state.step(scancode).caps_lock == (state.caps_lock != (state.classify(
            codes::CAPS_LOCK,
            scancode.make,
        ) == KeyEventType::Make)),
        state.step(scancode).num_lock == state.num_lock,
        state.step(scancode).scroll_lock == state.scroll_lock,
        state.step(scancode).function_lock == state.function_lock,
{
}

/// A second make of the caps lock key undoes the first: if `second` has the
/// locks that the make left in `first`, the make in `second` gives back the
/// locks of `first`.
pub proof fn lemma_caps_lock_twice(first: KeyboardState, second: KeyboardState, scancode: Scancode)
    requires
        scancode.reports(codes::CAPS_LOCK),
        scancode.make,
        !first.pressed.contains(codes::CAPS_LOCK),
        !second.pressed.contains(codes::CAPS_LOCK),
        second.same_locks(first.step(scancode)),
    ensures
        first.step(scancode).caps_lock == !first.caps_lock,
        second.step(scancode).same_locks(first),
{
}

/// Pressing, holding and releasing the caps lock key flips caps lock once,
/// on the first scancode; doing so a second time restores every lock.
pub proof fn lemma_caps_lock_round_trip(state: KeyboardState, code: u8, extended: bool)
    requires
        (Scancode { code, extended, make: true }).reports(codes::CAPS_LOCK),
        !state.pressed.contains(codes::CAPS_LOCK),
    ensures
        ({
            let press = Scancode { code, extended, make: true };
            let release = Scancode { code, extended, make: false };
            let made = state.step(press);
            let repeated = made.step(press);
            let released = repeated.step(release);
            let again = released.step(press).step(release);
            &&& made.caps_lock == !state.caps_lock
            &&& repeated.same_locks(made)
            &&& released.same_locks(made)
            &&& again.same_locks(state)
            &&& again.pressed =~= state.pressed
        }),
{
    let press = Scancode { code, extended, make: true };
    let release = Scancode { code, extended, make: false };
    let again = state.step(press).step(press).step(release).step(press).step(release);
    assert(again.pressed =~= state.pressed);
}

/// No lock changes on an event that is not a make, whatever its key.
pub proof fn lemma_locks_change_on_make_only(state: KeyboardState, scancode: Scancode)
    requires
        state.event(scancode) matches Some(event) && event.event_type != KeyEventType::Make,
    ensures
        state.step(scancode).same_locks(state),
{
}

/// A scancode that neither table knows gives no event and leaves the held
/// keys and the locks as they were.
pub proof fn lemma_unknown_scancode_contained(state: KeyboardState, scancode: Scancode)
    requires
        scancode.spec_keycode().is_err(),
    ensures
        state.event(scancode).is_none(),
        state.step(scancode) == state,
{
}

/// An event's key is held after a make and not held after a break; every
/// other key is held as before.
pub proof fn lemma_step_pressed(state: KeyboardState, scancode: Scancode, keycode: Keycode)
    ensures
        state.step(scancode).pressed.contains(keycode) == if scancode.reports(keycode) {
            scancode.make
        } else {
            state.pressed.contains(keycode)
        },
{
}

} // verus!
