//! The keyboard as the engine reports it, and the keys that the controller
//! is bound to.

use bevy::input::keyboard::KeyCode;
use bevy::input::ButtonInput;
use crate::input::{events_of, movement_events, Key, Keys, MovementEvent};
use core::hash::Hash;
use vstd::prelude::*;

verus! {

/// `bevy::input::ButtonInput`, the engine's record of which buttons are down
/// and which went down in the current frame. Nothing is known of its inside.
#[verifier::external_type_specification]
#[verifier::external_body]
#[verifier::reject_recursive_types(T)]
pub struct ExButtonInput<T: Copy + Eq + Hash + Send + Sync + 'static>(ButtonInput<T>);

/// `bevy::input::keyboard::KeyCode`, the engine's name for a physical key.
#[verifier::external_type_specification]
#[verifier::external_body]
pub struct ExKeyCode(KeyCode);

/// A physical key that the controller listens to.
#[derive(Clone, Copy, Debug, PartialEq, Eq)]
pub enum BoundKey {
    KeyA,
    ArrowLeft,
    KeyD,
    ArrowRight,
    KeyW,
    ArrowUp,
}

/// The bound keys that `input` holds as down: those for whose key code
/// `ButtonInput::pressed` answers yes.
pub uninterp spec fn pressed_keys(input: ButtonInput<KeyCode>) -> Set<BoundKey>;

/// The bound keys that `input` holds as having gone down in this frame:
/// those for whose key code `ButtonInput::just_pressed` answers yes.
pub uninterp spec fn just_pressed_keys(input: ButtonInput<KeyCode>) -> Set<BoundKey>;

/// Calls `ButtonInput::any_pressed` on the key codes that `first` and `second`
/// stand for.
///
/// Not proved: that it tells whether either key is among the keys that the
/// keyboard holds as down.
#[verifier::external_body]
pub(crate) fn any_pressed(input: &ButtonInput<KeyCode>, first: BoundKey, second: BoundKey) -> (down:
    bool)
    ensures
        down == (pressed_keys(*input).contains(first) || pressed_keys(*input).contains(second)),
{
    input.any_pressed([first, second].map(|key| match key {
        BoundKey::KeyA => KeyCode::KeyA,
        BoundKey::ArrowLeft => KeyCode::ArrowLeft,
        BoundKey::KeyD => KeyCode::KeyD,
        BoundKey::ArrowRight => KeyCode::ArrowRight,
        BoundKey::KeyW => KeyCode::KeyW,
        BoundKey::ArrowUp => KeyCode::ArrowUp,
    }))
}

/// Calls `ButtonInput::any_just_pressed` on the key codes that `first` and
/// `second` stand for.
///
/// Not proved: that it tells whether either key is among the keys that the
/// keyboard holds as having gone down in this frame.
#[verifier::external_body]
pub(crate) fn any_just_pressed(
    input: &ButtonInput<KeyCode>,
    first: BoundKey,
    second: BoundKey,
) -> (struck: bool)
    ensures
        struck == (just_pressed_keys(*input).contains(first) || just_pressed_keys(
            *input,
        ).contains(second)),
{
    input.any_just_pressed([first, second].map(|key| match key {
        BoundKey::KeyA => KeyCode::KeyA,
        BoundKey::ArrowLeft => KeyCode::ArrowLeft,
        BoundKey::KeyD => KeyCode::KeyD,
        BoundKey::ArrowRight => KeyCode::ArrowRight,
        BoundKey::KeyW => KeyCode::KeyW,
        BoundKey::ArrowUp => KeyCode::ArrowUp,
    }))
}

/// The logical keys, as the two sets of bound keys give them: left is
/// <kbd>A</kbd> or the left arrow, right is <kbd>D</kbd> or the right arrow,
/// jump is <kbd>W</kbd> or the up arrow. A logical key is down, or just went
/// down, when either of its two keys is.
pub open spec fn keys_of(down: Set<BoundKey>, struck: Set<BoundKey>) -> Keys {
    Keys {
        left: Key {
            pressed: down.contains(BoundKey::KeyA) || down.contains(BoundKey::ArrowLeft),
            just_pressed: struck.contains(BoundKey::KeyA) || struck.contains(BoundKey::ArrowLeft),
        },
        right: Key {
            pressed: down.contains(BoundKey::KeyD) || down.contains(BoundKey::ArrowRight),
            just_pressed: struck.contains(BoundKey::KeyD) || struck.contains(
                BoundKey::ArrowRight,
            ),
        },
        jump: Key {
            pressed: down.contains(BoundKey::KeyW) || down.contains(BoundKey::ArrowUp),
            just_pressed: struck.contains(BoundKey::KeyW) || struck.contains(BoundKey::ArrowUp),
        },
    }
}

/// Reads one logical key, bound to the keys `first` and `second`.
fn read_key(input: &ButtonInput<KeyCode>, first: BoundKey, second: BoundKey) -> (key: Key)
    ensures
        key.pressed == (pressed_keys(*input).contains(first) || pressed_keys(*input).contains(
            second,
        )),
        key.just_pressed == (just_pressed_keys(*input).contains(first) || just_pressed_keys(
            *input,
        ).contains(second)),
{
    Key {
        pressed: any_pressed(input, first, second),
        just_pressed: any_just_pressed(input, first, second),
    }
}

/// Reads the three logical keys from the keyboard.
pub fn read_keys(input: &ButtonInput<KeyCode>) -> (keys: Keys)
    ensures
        keys == keys_of(pressed_keys(*input), just_pressed_keys(*input)),
{
    Keys {
        left: read_key(input, BoundKey::KeyA, BoundKey::ArrowLeft),
        right: read_key(input, BoundKey::KeyD, BoundKey::ArrowRight),
        jump: read_key(input, BoundKey::KeyW, BoundKey::ArrowUp),
    }
}

/// Maps the keyboard of one tick to its movement events.
pub fn keyboard_input(input: &ButtonInput<KeyCode>) -> (events: Vec<MovementEvent>)
    ensures
        events@ == events_of(keys_of(pressed_keys(*input), just_pressed_keys(*input))),
{
    let keys = read_keys(input);
    movement_events(&keys)
}

} // verus!
