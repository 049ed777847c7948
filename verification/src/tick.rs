//! One tick of the controller: the four stages in their fixed order.

use crate::damping::{apply_movement_damping, damped_x, lemma_damping_slows};
use crate::ground::{detect_grounded, supported};
use crate::input::{direction_of, events_of, movement_events, Keys};
use crate::movement::{
    jumps_in, lemma_events_fit, lemma_events_keep_cap, lemma_jumps_stack, move_playable,
    moved_x,
};
use crate::playable::{Motion, Playable};
use crate::units::{magnitude, JUMP_SPEED, MAX_X_SPEED};
use vstd::prelude::*;

verus! {

impl Motion {
    /// The player after one tick: the grounded flag is set from the contacts,
    /// the keys become events, the events move the player, and what is left
    /// of the horizontal speed is damped.
    pub open spec fn ticked(
        self,
        player_y: int,
        contacts: Seq<Option<i64>>,
        keys: Keys,
        dt_micros: int,
    ) -> Motion {
        let scanned = Motion { grounded: supported(player_y, contacts), ..self };
        scanned.after_events(events_of(keys), dt_micros).damped()
    }
}

/// The grounded flag after a tick comes from the contacts of that tick alone,
/// and is false where there are none.
pub proof fn lemma_tick_forgets_ground(
    m: Motion,
    player_y: int,
    contacts: Seq<Option<i64>>,
    keys: Keys,
    dt_micros: int,
)
    ensures
        m.ticked(player_y, contacts, keys, dt_micros).grounded == supported(player_y, contacts),
        contacts.len() == 0 ==> !m.ticked(player_y, contacts, keys, dt_micros).grounded,
{
    let scanned = Motion { grounded: supported(player_y, contacts), ..m };
    lemma_jumps_stack(scanned, events_of(keys), dt_micros);
}

/// A tick keeps a horizontal speed that is within the cap within the cap.
pub proof fn lemma_tick_keeps_cap(
    m: Motion,
    player_y: int,
    contacts: Seq<Option<i64>>,
    keys: Keys,
    dt_micros: int,
)
    requires
        m.valid(),
        magnitude(m.x) <= MAX_X_SPEED,
    ensures
        magnitude(m.ticked(player_y, contacts, keys, dt_micros).x) <= MAX_X_SPEED,
{
    let scanned = Motion { grounded: supported(player_y, contacts), ..m };
    lemma_events_keep_cap(scanned, events_of(keys), dt_micros);
    lemma_jumps_stack(scanned, events_of(keys), dt_micros);
    lemma_damping_slows(scanned.after_events(events_of(keys), dt_micros));
}

/// A tick changes the vertical speed in one case only: the jump key just
/// went down and the player stands on something. Then it adds the jump
/// speed, once.
pub proof fn lemma_tick_jumps_on_edge(
    m: Motion,
    player_y: int,
    contacts: Seq<Option<i64>>,
    keys: Keys,
    dt_micros: int,
)
    ensures
        m.ticked(player_y, contacts, keys, dt_micros).y == if keys.jump.just_pressed && supported(
            player_y,
            contacts,
        ) {
            m.y + JUMP_SPEED
        } else {
            m.y
        },
{
    let scanned = Motion { grounded: supported(player_y, contacts), ..m };
    lemma_jumps_stack(scanned, events_of(keys), dt_micros);
    lemma_one_jump_per_edge(keys);
}

/// What a tick does to the horizontal speed: one move in the direction of
/// the keys, if that is not zero, then damping under the grounded flag of
/// this tick.
pub proof fn lemma_tick_moves_then_damps(
    m: Motion,
    player_y: int,
    contacts: Seq<Option<i64>>,
    keys: Keys,
    dt_micros: int,
)
    ensures
        m.ticked(player_y, contacts, keys, dt_micros).x == damped_x(
            if direction_of(keys.left.pressed, keys.right.pressed) != 0 {
                moved_x(m.x, direction_of(keys.left.pressed, keys.right.pressed), dt_micros)
            } else {
                m.x
            },
            supported(player_y, contacts),
            m.damping,
        ),
{
    let scanned = Motion { grounded: supported(player_y, contacts), ..m };
    let events = events_of(keys);
    lemma_jumps_stack(scanned, events, dt_micros);
    reveal_with_fuel(Motion::after_events, 3);
    if events.len() > 0 {
        let front = events.drop_last();
        if front.len() > 0 {
            assert(front.drop_last().len() == 0);
            assert(front.last() is Move);
        }
    }
}

/// The events of a tick hold one jump if the jump key just went down, and
/// none otherwise.
pub proof fn lemma_one_jump_per_edge(keys: Keys)
    ensures
        jumps_in(events_of(keys)) == if keys.jump.just_pressed {
            1nat
        } else {
            0nat
        },
{
    let events = events_of(keys);
    reveal_with_fuel(jumps_in, 3);
    if events.len() > 0 {
        let front = events.drop_last();
        if front.len() > 0 {
            assert(front.drop_last().len() == 0);
            assert(front.last() is Move);
        }
    }
}

/// Runs one tick on the player: grounded detector, input mapper, movement
/// applier, damping applier.
pub fn update(
    player: &mut Playable,
    player_y: i64,
    contacts: &Vec<Option<i64>>,
    keys: &Keys,
    dt_micros: u64,
)
    requires
        keys.jump.just_pressed && supported(player_y as int, contacts@) ==> old(
            player,
        ).velocity.y + JUMP_SPEED <= i64::MAX,
    ensures
        final(player)@ == old(player)@.ticked(
            player_y as int,
            contacts@,
            *keys,
            dt_micros as int,
        ),
        final(player).damping == old(player).damping,
        final(player).grounded == supported(player_y as int, contacts@),
        contacts@.len() == 0 ==> !final(player).grounded,
        final(player).velocity.y == if keys.jump.just_pressed && supported(
            player_y as int,
            contacts@,
        ) {
            old(player).velocity.y + JUMP_SPEED
        } else {
            old(player).velocity.y as int
        },
        final(player).velocity.x == damped_x(
            if direction_of(keys.left.pressed, keys.right.pressed) != 0 {
                moved_x(
                    old(player).velocity.x as int,
                    direction_of(keys.left.pressed, keys.right.pressed),
                    dt_micros as int,
                )
            } else {
                old(player).velocity.x as int
            },
            supported(player_y as int, contacts@),
            old(player).damping.hundredths(),
        ),
        magnitude(old(player).velocity.x as int) <= MAX_X_SPEED ==> magnitude(
            final(player).velocity.x as int,
        ) <= MAX_X_SPEED,
{
    detect_grounded(player, player_y, contacts);
    let events = movement_events(keys);
    proof {
        lemma_tick_jumps_on_edge(
            old(player)@,
            player_y as int,
            contacts@,
            *keys,
            dt_micros as int,
        );
        lemma_tick_moves_then_damps(
            old(player)@,
            player_y as int,
            contacts@,
            *keys,
            dt_micros as int,
        );
        lemma_one_jump_per_edge(*keys);
        lemma_events_fit(player@, events@, dt_micros as int);
    }
    move_playable(player, &events, dt_micros);
    apply_movement_damping(player);
}

} // verus!
