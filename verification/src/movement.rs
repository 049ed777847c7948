//! The movement applier: what the movement events of a tick do to the
//! player's velocity.

use crate::input::MovementEvent;
use crate::playable::{Motion, Playable};
use crate::units::{clamped, magnitude, JUMP_SPEED, MAX_X_SPEED, MICROS_PER_SECOND, MILLI, MOVE_SPEED};
use vstd::prelude::*;

verus! {

/// Horizontal speed, in thousandths, that holding a direction for
/// `dt_micros` microseconds adds.
pub open spec fn speed_gain(dt_micros: int) -> int {
    MOVE_SPEED * MILLI * dt_micros / (MICROS_PER_SECOND as int)
}

/// Horizontal speed after a move in `direction` that lasted `dt_micros`.
///
/// The guard looks at the speed before the move: a speed within the cap is
/// advanced and then clamped to the cap, a speed beyond it is left alone.
pub open spec fn moved_x(x: int, direction: int, dt_micros: int) -> int {
    if magnitude(x) <= MAX_X_SPEED {
        clamped(x + direction * speed_gain(dt_micros), -MAX_X_SPEED, MAX_X_SPEED as int)
    } else {
        x
    }
}

/// Vertical speed after a jump: the jump speed is added, on the ground only.
pub open spec fn jumped_y(y: int, grounded: bool) -> int {
    if grounded {
        y + JUMP_SPEED
    } else {
        y
    }
}

impl Motion {
    /// The player after one movement event.
    pub open spec fn after_event(self, event: MovementEvent, dt_micros: int) -> Motion {
        match event {
            MovementEvent::Move(direction) => Motion {
                x: moved_x(self.x, direction as int, dt_micros),
                ..self
            },
            MovementEvent::Jump => Motion { y: jumped_y(self.y, self.grounded), ..self },
        }
    }

    /// The player after a queue of movement events, taken from the front.
    pub open spec fn after_events(self, events: Seq<MovementEvent>, dt_micros: int) -> Motion
        decreases events.len(),
    {
        if events.len() == 0 {
            self
        } else {
            self.after_events(events.drop_last(), dt_micros).after_event(events.last(), dt_micros)
        }
    }
}

/// Number of jumps in a queue of events.
pub open spec fn jumps_in(events: Seq<MovementEvent>) -> nat
    decreases events.len(),
{
    if events.len() == 0 {
        0
    } else if events.last() is Jump {
        jumps_in(events.drop_last()) + 1
    } else {
        jumps_in(events.drop_last())
    }
}

/// A move keeps a horizontal speed that is within the cap within the cap,
/// whatever the direction and however long the tick.
pub proof fn lemma_move_keeps_cap(x: int, direction: int, dt_micros: int)
    requires
        magnitude(x) <= MAX_X_SPEED,
    ensures
        magnitude(moved_x(x, direction, dt_micros)) <= MAX_X_SPEED,
{
}

/// A jump in the air changes nothing; a jump on the ground adds exactly the
/// jump speed to the vertical speed and leaves the rest alone.
pub proof fn lemma_jump_needs_ground(m: Motion, dt_micros: int)
    ensures
        !m.grounded ==> m.after_event(MovementEvent::Jump, dt_micros) == m,
        m.grounded ==> m.after_event(MovementEvent::Jump, dt_micros) == (Motion {
            y: m.y + JUMP_SPEED,
            ..m
        }),
{
}

/// Events change neither the grounded flag nor the damping factor, and the
/// jumps among them stack: each one that finds the player on the ground adds
/// the jump speed once more.
pub proof fn lemma_jumps_stack(m: Motion, events: Seq<MovementEvent>, dt_micros: int)
    ensures
        m.after_events(events, dt_micros).grounded == m.grounded,
        m.after_events(events, dt_micros).damping == m.damping,
        m.grounded ==> m.after_events(events, dt_micros).y == m.y + jumps_in(events) * JUMP_SPEED,
        !m.grounded ==> m.after_events(events, dt_micros).y == m.y,
    decreases events.len(),
{
    if events.len() > 0 {
        lemma_jumps_stack(m, events.drop_last(), dt_micros);
    }
}

/// Events keep a horizontal speed that is within the cap within the cap.
pub proof fn lemma_events_keep_cap(m: Motion, events: Seq<MovementEvent>, dt_micros: int)
    requires
        magnitude(m.x) <= MAX_X_SPEED,
    ensures
        magnitude(m.after_events(events, dt_micros).x) <= MAX_X_SPEED,
    decreases events.len(),
{
    if events.len() > 0 {
        lemma_events_keep_cap(m, events.drop_last(), dt_micros);
    }
}

/// The outcome of a queue of events can be stored whenever the player before
/// it can and, on the ground, there is room above the vertical speed for
/// every jump of the queue.
pub proof fn lemma_events_fit(m: Motion, events: Seq<MovementEvent>, dt_micros: int)
    requires
        m.fits(),
        m.grounded ==> m.y + jumps_in(events) * JUMP_SPEED <= i64::MAX,
    ensures
        m.after_events(events, dt_micros).fits(),
{
    lemma_jumps_stack(m, events, dt_micros);
    lemma_x_stays_storable(m, events, dt_micros);
    assert(0 <= jumps_in(events) * JUMP_SPEED) by (nonlinear_arith);
}

/// Events keep a horizontal speed that can be stored storable.
proof fn lemma_x_stays_storable(m: Motion, events: Seq<MovementEvent>, dt_micros: int)
    requires
        i64::MIN <= m.x <= i64::MAX,
    ensures
        i64::MIN <= m.after_events(events, dt_micros).x <= i64::MAX,
    decreases events.len(),
{
    if events.len() > 0 {
        lemma_x_stays_storable(m, events.drop_last(), dt_micros);
    }
}

/// Advances a horizontal speed by one move.
pub fn move_x(x: i64, direction: i8, dt_micros: u64) -> (r: i64)
    ensures
        r == moved_x(x as int, direction as int, dt_micros as int),
        magnitude(x as int) <= MAX_X_SPEED ==> magnitude(r as int) <= MAX_X_SPEED,
{
    if x < -MAX_X_SPEED || x > MAX_X_SPEED {
        return x;
    }
    let per_second: u128 = (MOVE_SPEED as u128) * (MILLI as u128);
    let full: u128 = per_second * (dt_micros as u128) / (MICROS_PER_SECOND as u128);
    let reach: i64 = 2 * MAX_X_SPEED;
    let gain: i64 = if full > reach as u128 {
        reach
    } else {
        full as i64
    };
    let d: i64 = direction as i64;
    assert(-128 * reach <= d * gain <= 128 * reach) by (nonlinear_arith)
        requires
            -128 <= d <= 127,
            0 <= gain <= reach,
    ;
    let next: i64 = x + d * gain;
    proof {
        let g = speed_gain(dt_micros as int);
        assert(g == full);
        if full > reach {
            // Either way the move overshoots the cap, so both sums clamp alike.
            assert(d > 0 ==> d * g >= reach && d * gain >= reach) by (nonlinear_arith)
                requires
                    g >= reach,
                    gain >= reach,
                    reach >= 0,
            ;
            assert(d < 0 ==> d * g <= -reach && d * gain <= -reach) by (nonlinear_arith)
                requires
                    g >= reach,
                    gain >= reach,
                    reach >= 0,
            ;
            assert(d == 0 ==> d * g == 0 && d * gain == 0) by (nonlinear_arith);
        }
    }
    if next < -MAX_X_SPEED {
        -MAX_X_SPEED
    } else if next > MAX_X_SPEED {
        MAX_X_SPEED
    } else {
        next
    }
}

/// A front part of a queue holds no more jumps than the whole queue.
proof fn lemma_jumps_in_front(events: Seq<MovementEvent>, n: int)
    requires
        0 <= n <= events.len(),
    ensures
        jumps_in(events.take(n)) <= jumps_in(events),
    decreases events.len() - n,
{
    if n == events.len() {
        assert(events.take(n) =~= events);
    } else {
        lemma_jumps_in_front(events, n + 1);
        assert(events.take(n + 1).drop_last() =~= events.take(n));
    }
}

/// Applies one movement event to the player.
pub fn apply_event(player: &mut Playable, event: MovementEvent, dt_micros: u64)
    requires
        old(player)@.after_event(event, dt_micros as int).fits(),
    ensures
        final(player)@ == old(player)@.after_event(event, dt_micros as int),
        final(player).damping == old(player).damping,
        event is Move && magnitude(old(player).velocity.x as int) <= MAX_X_SPEED ==> magnitude(
            final(player).velocity.x as int,
        ) <= MAX_X_SPEED,
        event is Jump && !old(player).grounded ==> *final(player) == *old(player),
        event is Jump && old(player).grounded ==> final(player).velocity.y == old(
            player,
        ).velocity.y + JUMP_SPEED && final(player).velocity.x == old(player).velocity.x,
{
    match event {
        MovementEvent::Move(direction) => {
            player.velocity.x = move_x(player.velocity.x, direction, dt_micros);
        },
        MovementEvent::Jump => {
            if player.grounded {
                player.velocity.y = player.velocity.y + JUMP_SPEED;
            }
        },
    }
}

/// Says whether the outcome of a queue of events can be stored, however long
/// the tick: whether, on the ground, there is room above the vertical speed
/// for every jump of the queue.
pub fn events_fit(player: &Playable, events: &Vec<MovementEvent>) -> (fit: bool)
    ensures
        fit == (player.grounded ==> player.velocity.y + jumps_in(events@) * JUMP_SPEED
            <= i64::MAX),
        forall|dt_micros: int|
            fit == (#[trigger] player@.after_events(events@, dt_micros)).fits(),
{
    let mut jumps: usize = 0;
    let mut i: usize = 0;
    proof {
        assert(events@.take(0) =~= Seq::<MovementEvent>::empty());
    }
    while i < events.len()
        invariant
            0 <= i <= events.len(),
            jumps <= i,
            jumps == jumps_in(events@.take(i as int)),
        decreases events.len() - i,
    {
        proof {
            assert(events@.take(i + 1).drop_last() =~= events@.take(i as int));
        }
        match events[i] {
            MovementEvent::Jump => {
                jumps = jumps + 1;
            },
            MovementEvent::Move(_) => {},
        }
        i = i + 1;
    }
    proof {
        assert(events@.take(i as int) =~= events@);
        assert forall|dt_micros: int|
            (player.grounded ==> player.velocity.y + jumps_in(events@) * JUMP_SPEED <= i64::MAX)
                == (#[trigger] player@.after_events(events@, dt_micros)).fits() by {
            lemma_jumps_stack(player@, events@, dt_micros);
            lemma_x_stays_storable(player@, events@, dt_micros);
        }
    }
    !player.grounded || (player.velocity.y as i128) + (jumps as i128) * (JUMP_SPEED as i128)
        <= i64::MAX as i128
}

/// Applies the movement events of one tick to the player, in the order in
/// which they were emitted.
///
/// The vertical speed only grows along the queue, so it is enough that the
/// outcome can be stored.
pub fn move_playable(player: &mut Playable, events: &Vec<MovementEvent>, dt_micros: u64)
    requires
        old(player)@.after_events(events@, dt_micros as int).fits(),
    ensures
        final(player)@ == old(player)@.after_events(events@, dt_micros as int),
        final(player).damping == old(player).damping,
        final(player).grounded == old(player).grounded,
        magnitude(old(player).velocity.x as int) <= MAX_X_SPEED ==> magnitude(
            final(player).velocity.x as int,
        ) <= MAX_X_SPEED,
        old(player).grounded ==> final(player).velocity.y == old(player).velocity.y + jumps_in(
            events@,
        ) * JUMP_SPEED,
        !old(player).grounded ==> final(player).velocity.y == old(player).velocity.y,
{
    let ghost start = player@;
    let ghost dt = dt_micros as int;
    let mut i: usize = 0;
    proof {
        assert(events@.take(0) =~= Seq::<MovementEvent>::empty());
    }
    while i < events.len()
        invariant
            0 <= i <= events.len(),
            dt == dt_micros as int,
            start == old(player)@,
            start.after_events(events@, dt).fits(),
            player@ == start.after_events(events@.take(i as int), dt),
            player.damping == old(player).damping,
        decreases events.len() - i,
    {
        let event = events[i];
        proof {
            let front = events@.take(i as int);
            let next = events@.take(i + 1);
            assert(next.drop_last() =~= front);
            assert(next.last() == event);
            lemma_jumps_stack(start, next, dt);
            lemma_jumps_stack(start, events@, dt);
            lemma_jumps_in_front(events@, i + 1);
            assert(jumps_in(next) * JUMP_SPEED <= jumps_in(events@) * JUMP_SPEED)
                by (nonlinear_arith)
                requires
                    jumps_in(next) <= jumps_in(events@),
            ;
        }
        apply_event(player, event, dt_micros);
        i = i + 1;
    }
    proof {
        assert(events@.take(i as int) =~= events@);
        lemma_jumps_stack(start, events@, dt);
        if magnitude(start.x) <= MAX_X_SPEED {
            lemma_events_keep_cap(start, events@, dt);
        }
    }
}

} // verus!
