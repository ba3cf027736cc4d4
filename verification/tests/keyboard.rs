use bevy::input::keyboard::KeyCode;
use bevy::input::ButtonInput;
use rover_motion::keyboard::{Controls, Key, BACKWARD, FORWARD, ROTATE_LEFT, ROTATE_RIGHT};

fn keyboard(held: &[KeyCode]) -> ButtonInput<KeyCode> {
    let mut input = ButtonInput::<KeyCode>::default();
    for key in held {
        input.press(*key);
    }
    input
}

const NONE: Controls = Controls {
    rotate_left: false,
    rotate_right: false,
    forward: false,
    backward: false,
};

#[test]
fn bindings_are_a_d_w_s() {
    assert_eq!(ROTATE_LEFT, Key::KeyA);
    assert_eq!(ROTATE_RIGHT, Key::KeyD);
    assert_eq!(FORWARD, Key::KeyW);
    assert_eq!(BACKWARD, Key::KeyS);
}

#[test]
fn read_with_no_key_held() {
    assert_eq!(Controls::read(&keyboard(&[])), NONE);
}

#[test]
fn read_each_key_alone() {
    assert_eq!(
        Controls::read(&keyboard(&[KeyCode::KeyA])),
        Controls { rotate_left: true, ..NONE }
    );
    assert_eq!(
        Controls::read(&keyboard(&[KeyCode::KeyD])),
        Controls { rotate_right: true, ..NONE }
    );
    assert_eq!(
        Controls::read(&keyboard(&[KeyCode::KeyW])),
        Controls { forward: true, ..NONE }
    );
    assert_eq!(
        Controls::read(&keyboard(&[KeyCode::KeyS])),
        Controls { backward: true, ..NONE }
    );
}

#[test]
fn read_all_keys_held() {
    let input = keyboard(&[KeyCode::KeyA, KeyCode::KeyD, KeyCode::KeyW, KeyCode::KeyS]);
    assert_eq!(
        Controls::read(&input),
        Controls { rotate_left: true, rotate_right: true, forward: true, backward: true }
    );
}

#[test]
fn read_ignores_other_keys() {
    let input = keyboard(&[KeyCode::KeyQ, KeyCode::ArrowLeft, KeyCode::Space]);
    assert_eq!(Controls::read(&input), NONE);
}

#[test]
fn read_after_release() {
    let mut input = keyboard(&[KeyCode::KeyA, KeyCode::KeyW]);
    input.release(KeyCode::KeyA);
    assert_eq!(Controls::read(&input), Controls { forward: true, ..NONE });
}
