//! Keyboard mapping: one key press sets at most one button of the input record.
use crate::state::InputState;
use vstd::prelude::*;

verus! {

/// A key as the input source reports it.
#[derive(Clone, Copy, Debug, PartialEq, Eq, Structural)]
pub enum Key {
    Left,
    Right,
    Up,
    Down,
    Esc,
    Char(char),
    Other,
}

/// The record with every button released.
pub open spec fn released() -> InputState {
    InputState {
        p1_left: false,
        p1_right: false,
        p1_accel: false,
        p1_brake: false,
        p1_boost: false,
        p2_left: false,
        p2_right: false,
        p2_accel: false,
        p2_brake: false,
        p2_boost: false,
        quit: false,
        pause: false,
        menu: false,
    }
}

pub open spec fn is_char(k: Key, lower: char, upper: char) -> bool {
    k == Key::Char(lower) || k == Key::Char(upper)
}

/// `s` with the button bound to `k` pressed: player one on the arrows, WASD and
/// space; player two on IJKL and U; Q or Esc quits, P pauses, M opens the menu.
/// Any other key changes nothing.
pub open spec fn press(s: InputState, k: Key) -> InputState {
    if k == Key::Left || is_char(k, 'a', 'A') {
        InputState { p1_left: true, ..s }
    } else if k == Key::Right || is_char(k, 'd', 'D') {
        InputState { p1_right: true, ..s }
    } else if k == Key::Up || is_char(k, 'w', 'W') {
        InputState { p1_accel: true, ..s }
    } else if k == Key::Down || is_char(k, 's', 'S') {
        InputState { p1_brake: true, ..s }
    } else if k == Key::Char(' ') {
        InputState { p1_boost: true, ..s }
    } else if is_char(k, 'j', 'J') {
        InputState { p2_left: true, ..s }
    } else if is_char(k, 'l', 'L') {
        InputState { p2_right: true, ..s }
    } else if is_char(k, 'i', 'I') {
        InputState { p2_accel: true, ..s }
    } else if is_char(k, 'k', 'K') {
        InputState { p2_brake: true, ..s }
    } else if is_char(k, 'u', 'U') {
        InputState { p2_boost: true, ..s }
    } else if is_char(k, 'q', 'Q') || k == Key::Esc {
        InputState { quit: true, ..s }
    } else if is_char(k, 'p', 'P') {
        InputState { pause: true, ..s }
    } else if is_char(k, 'm', 'M') {
        InputState { menu: true, ..s }
    } else {
        s
    }
}

fn is_key_char(k: Key, lower: char, upper: char) -> (r: bool)
    ensures
        r == is_char(k, lower, upper),
{
    match k {
        Key::Char(c) => c == lower || c == upper,
        _ => false,
    }
}

impl InputState {
    /// Every button released.
    pub fn released() -> (r: InputState)
        ensures
            r == released(),
    {
        InputState {
            p1_left: false,
            p1_right: false,
            p1_accel: false,
            p1_brake: false,
            p1_boost: false,
            p2_left: false,
            p2_right: false,
            p2_accel: false,
            p2_brake: false,
            p2_boost: false,
            quit: false,
            pause: false,
            menu: false,
        }
    }

    /// The record of one poll: all released, then the polled key, if any, pressed.
    pub fn from_key(key: Option<Key>) -> (r: InputState)
        ensures
            r == match key {
                Some(k) => press(released(), k),
                None => released(),
            },
    {
        let mut s = InputState::released();
        if let Some(k) = key {
            handle_key_event(k, &mut s);
        }
        s
    }
}

/// Presses the button that `code` is bound to.
pub fn handle_key_event(code: Key, input_state: &mut InputState)
    ensures
        *final(input_state) == press(*old(input_state), code),
{
    *input_state = pressed(*input_state, code);
}

#[verifier::rlimit(40)]
fn pressed(s: InputState, k: Key) -> (r: InputState)
    ensures
        r == press(s, k),
{
    if k == Key::Left || is_key_char(k, 'a', 'A') {
        InputState { p1_left: true, ..s }
    } else if k == Key::Right || is_key_char(k, 'd', 'D') {
        InputState { p1_right: true, ..s }
    } else if k == Key::Up || is_key_char(k, 'w', 'W') {
        InputState { p1_accel: true, ..s }
    } else if k == Key::Down || is_key_char(k, 's', 'S') {
        InputState { p1_brake: true, ..s }
    } else if k == Key::Char(' ') {
        InputState { p1_boost: true, ..s }
    } else if is_key_char(k, 'j', 'J') {
        InputState { p2_left: true, ..s }
    } else if is_key_char(k, 'l', 'L') {
        InputState { p2_right: true, ..s }
    } else if is_key_char(k, 'i', 'I') {
        InputState { p2_accel: true, ..s }
    } else if is_key_char(k, 'k', 'K') {
        InputState { p2_brake: true, ..s }
    } else if is_key_char(k, 'u', 'U') {
        InputState { p2_boost: true, ..s }
    } else if is_key_char(k, 'q', 'Q') || k == Key::Esc {
        InputState { quit: true, ..s }
    } else if is_key_char(k, 'p', 'P') {
        InputState { pause: true, ..s }
    } else if is_key_char(k, 'm', 'M') {
        InputState { menu: true, ..s }
    } else {
        s
    }
}

} // verus!
