//! How keys of the keyboard stand for buttons of the controller.

use vstd::prelude::*;
use crate::controller_input::{ControllerInput, A, B, DOWN, LEFT, RIGHT, SELECT, START, UP};

verus! {

/// A key of the keyboard, as far as the controller cares.
#[derive(Clone, Copy, Debug, PartialEq, Eq, Structural)]
pub enum Key {
    /// The letter X.
    X,
    /// The letter Z.
    Z,
    /// The letter S.
    S,
    /// The letter A.
    A,
    /// The down arrow.
    Down,
    /// The left arrow.
    Left,
    /// The right arrow.
    Right,
    /// The up arrow.
    Up,
    /// Any other key.
    Other,
}

/// The mask of the button that a key stands for, if it stands for one.
pub open spec fn key_mask(key: Key) -> Option<u8> {
    match key {
        Key::X => Some(A),
        Key::Z => Some(B),
        Key::S => Some(START),
        Key::A => Some(SELECT),
        Key::Down => Some(DOWN),
        Key::Left => Some(LEFT),
        Key::Right => Some(RIGHT),
        Key::Up => Some(UP),
        Key::Other => None,
    }
}

/// The button that a key stands for, or an error for a key that stands for
/// none.
pub fn virtual_keycode_to_controller_input(keycode: &Key) -> (result: Result<ControllerInput, ()>)
    ensures
        match result {
            Ok(input) => key_mask(*keycode) == Some(input@),
            Err(_) => key_mask(*keycode) is None,
        },
{
    match keycode {
        Key::X => Ok(ControllerInput::a()),
        Key::Z => Ok(ControllerInput::b()),
        Key::S => Ok(ControllerInput::start()),
        Key::A => Ok(ControllerInput::select()),
        Key::Down => Ok(ControllerInput::down()),
        Key::Left => Ok(ControllerInput::left()),
        Key::Right => Ok(ControllerInput::right()),
        Key::Up => Ok(ControllerInput::up()),
        Key::Other => Err(()),
    }
}

/// Applies a key event to the controller state and says whether it changed
/// anything the core has to hear of. A key that stands for a button presses it
/// when it goes down and lets it go when it comes up; any other key leaves the
/// state alone.
pub fn handle_key(controller: &mut ControllerInput, pressed: bool, key: &Key) -> (handled: bool)
    ensures
        handled == key_mask(*key) is Some,
        match key_mask(*key) {
            Some(mask) => final(controller)@ == (if pressed {
                old(controller)@ | mask
            } else {
                old(controller)@ & !mask
            }),
            None => final(controller)@ == old(controller)@,
        },
{
    match virtual_keycode_to_controller_input(key) {
        Ok(button) => {
            if pressed {
                controller.insert(button);
            } else {
                controller.remove(button);
            }
            true
        },
        Err(_) => false,
    }
}

} // verus!
