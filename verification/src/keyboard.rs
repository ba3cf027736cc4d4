//! The keyboard, as the rover reads it.

use bevy::input::keyboard::KeyCode;
use bevy::input::ButtonInput;
use std::hash::Hash;
use vstd::prelude::*;

verus! {

/// bevy's code of a physical key.
#[verifier::external_type_specification]
#[verifier::external_body]
pub struct ExKeyCode(bevy::input::keyboard::KeyCode);

/// bevy's record of the buttons that are held down.
#[verifier::external_type_specification]
#[verifier::external_body]
#[verifier::reject_recursive_types(T)]
pub struct ExButtonInput<T: Copy + Eq + Hash + Send + Sync + 'static>(bevy::input::ButtonInput<T>);

/// A key that the rover listens to, named as bevy's `KeyCode` names it.
#[derive(Clone, Copy, Debug, PartialEq, Eq, Structural)]
pub enum Key {
    KeyA,
    KeyD,
    KeyS,
    KeyW,
}

/// The keys of [`Key`] that `input` records as held down.
pub uninterp spec fn pressed_keys(input: ButtonInput<KeyCode>) -> Set<Key>;

/// Calls `ButtonInput::pressed` with the `KeyCode` of the same name as `key`.
/// bevy answers whether that code is in its set of pressed buttons; the
/// contract gives that set the name [`pressed_keys`].
#[verifier::external_body]
fn pressed(input: &ButtonInput<KeyCode>, key: Key) -> (held: bool)
    ensures
        held == pressed_keys(*input).contains(key),
{
    input.pressed(match key {
        Key::KeyA => KeyCode::KeyA,
        Key::KeyD => KeyCode::KeyD,
        Key::KeyS => KeyCode::KeyS,
        Key::KeyW => KeyCode::KeyW,
    })
}

/// The key that turns the rover to the left.
pub const ROTATE_LEFT: Key = Key::KeyA;

/// The key that turns the rover to the right.
pub const ROTATE_RIGHT: Key = Key::KeyD;

/// The key that drives the rover forward.
pub const FORWARD: Key = Key::KeyW;

/// The key that drives the rover backward.
pub const BACKWARD: Key = Key::KeyS;

/// What the keyboard asks of the rover at one tick.
#[derive(Clone, Copy, Debug, PartialEq, Eq, Structural)]
pub struct Controls {
    pub rotate_left: bool,
    pub rotate_right: bool,
    pub forward: bool,
    pub backward: bool,
}

impl Controls {
    /// The controls that a set of held keys stands for.
    pub open spec fn held(keys: Set<Key>) -> Controls {
        Controls {
            rotate_left: keys.contains(ROTATE_LEFT),
            rotate_right: keys.contains(ROTATE_RIGHT),
            forward: keys.contains(FORWARD),
            backward: keys.contains(BACKWARD),
        }
    }

    /// Reads the four keys of the rover from the keyboard.
    pub fn read(keyboard_input: &ButtonInput<KeyCode>) -> (controls: Controls)
        ensures
            controls == Controls::held(pressed_keys(*keyboard_input)),
    {
        Controls {
            rotate_left: pressed(keyboard_input, ROTATE_LEFT),
            rotate_right: pressed(keyboard_input, ROTATE_RIGHT),
            forward: pressed(keyboard_input, FORWARD),
            backward: pressed(keyboard_input, BACKWARD),
        }
    }
}

} // verus!
