//! The input mapper: from the state of the logical keys to the movement
//! events of one tick.

use vstd::prelude::*;

verus! {

/// State of one logical key during a tick.
#[derive(Clone, Copy, Debug, PartialEq, Eq)]
pub struct Key {
    /// The key is down during this tick.
    pub pressed: bool,
    /// The key went from up to down in this tick.
    pub just_pressed: bool,
}

/// State of the three logical keys that steer the player.
#[derive(Clone, Copy, Debug, PartialEq, Eq)]
pub struct Keys {
    pub left: Key,
    pub right: Key,
    pub jump: Key,
}

/// What the player asks for in one tick. An event lives for that tick only.
#[derive(Clone, Copy, Debug, PartialEq, Eq)]
pub enum MovementEvent {
    /// Accelerate horizontally; the sign of the number is the direction.
    Move(i8),
    /// Leave the ground.
    Jump,
}

/// Horizontal direction asked for by the two move keys: `1` for right alone,
/// `-1` for left alone, `0` when both or neither are held.
pub open spec fn direction_of(left: bool, right: bool) -> int {
    if right && !left {
        1
    } else if left && !right {
        -1
    } else {
        0
    }
}

/// The events of a tick, in the order in which they are emitted: the move, if
/// the direction is not zero, then the jump, if the jump key just went down.
pub open spec fn events_of(keys: Keys) -> Seq<MovementEvent> {
    let d = direction_of(keys.left.pressed, keys.right.pressed);
    let moves = if d != 0 {
        seq![MovementEvent::Move(d as i8)]
    } else {
        Seq::<MovementEvent>::empty()
    };
    let jumps = if keys.jump.just_pressed {
        seq![MovementEvent::Jump]
    } else {
        Seq::<MovementEvent>::empty()
    };
    moves + jumps
}

/// Reduces the two move keys to a signed direction.
pub fn direction(left: bool, right: bool) -> (d: i8)
    ensures
        d == direction_of(left, right),
        -1 <= d <= 1,
{
    let r: i8 = if right {
        1
    } else {
        0
    };
    let l: i8 = if left {
        1
    } else {
        0
    };
    r - l
}

/// Maps the logical keys of one tick to its movement events.
///
/// The move depends on which keys are held; the jump depends only on the
/// edge, so a jump key that stays down gives one jump, in the tick in which
/// it went down.
pub fn movement_events(keys: &Keys) -> (events: Vec<MovementEvent>)
    ensures
        events@ == events_of(*keys),
        events@.contains(MovementEvent::Jump) <==> keys.jump.just_pressed,
        forall|d: i8| #[trigger]
            events@.contains(MovementEvent::Move(d)) <==> d != 0 && d == direction_of(
                keys.left.pressed,
                keys.right.pressed,
            ),
{
    let mut events: Vec<MovementEvent> = Vec::new();
    let d: i8 = direction(keys.left.pressed, keys.right.pressed);
    if d != 0 {
        events.push(MovementEvent::Move(d));
    }
    if keys.jump.just_pressed {
        events.push(MovementEvent::Jump);
    }
    proof {
        assert(events@ =~= events_of(*keys));
        if keys.jump.just_pressed {
            assert(events@[events@.len() - 1] == MovementEvent::Jump);
        }
        if d != 0 {
            assert(events@[0] == MovementEvent::Move(d));
        }
    }
    events
}

} // verus!
