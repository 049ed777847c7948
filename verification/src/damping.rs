//! The damping applier: friction on the ground, drag in the air.

use crate::playable::{Motion, Playable};
use crate::units::{magnitude, scale, scaled, STOP_SPEED};
use vstd::prelude::*;

verus! {

/// Horizontal speed after damping.
///
/// In the air, or faster than the stop speed, the speed is scaled by the
/// damping factor, rounding toward zero. On the ground and no faster than
/// the stop speed, the player stops.
pub open spec fn damped_x(x: int, grounded: bool, percent: int) -> int {
    if !grounded || magnitude(x) > STOP_SPEED {
        scaled(x, percent)
    } else {
        0
    }
}

impl Motion {
    /// The player after damping. The vertical speed is not damped.
    pub open spec fn damped(self) -> Motion {
        Motion { x: damped_x(self.x, self.grounded, self.damping), ..self }
    }
}

/// Scaling rounds toward zero and loses less than one thousandth: the result
/// has the sign of `v`, and a hundred times it falls short of `v * percent`
/// by less than a hundred.
pub proof fn lemma_scaled_is_close(v: int, percent: int)
    requires
        0 <= percent <= 100,
    ensures
        v >= 0 ==> 0 <= v * percent - 100 * scaled(v, percent) < 100,
        v <= 0 ==> 0 <= 100 * scaled(v, percent) - v * percent < 100,
        magnitude(scaled(v, percent)) <= magnitude(v),
{
    if v >= 0 {
        assert(0 <= v * percent <= v * 100) by (nonlinear_arith)
            requires
                0 <= percent <= 100,
                v >= 0,
        ;
    } else {
        assert(0 <= -v * percent <= -v * 100) by (nonlinear_arith)
            requires
                0 <= percent <= 100,
                v < 0,
        ;
        assert(-v * percent == -(v * percent)) by (nonlinear_arith);
    }
}

/// On the ground, a speed of no more than the stop speed becomes zero.
pub proof fn lemma_friction_stops(m: Motion)
    requires
        m.grounded,
        magnitude(m.x) <= STOP_SPEED,
    ensures
        m.damped().x == 0,
{
}

/// In the air the speed is scaled by the damping factor, whatever it is.
pub proof fn lemma_drag_scales(m: Motion)
    requires
        !m.grounded,
    ensures
        m.damped().x == scaled(m.x, m.damping),
{
}

/// Damping never makes the player faster.
pub proof fn lemma_damping_slows(m: Motion)
    requires
        m.valid(),
    ensures
        magnitude(m.damped().x) <= magnitude(m.x),
        m.damped().y == m.y,
{
    lemma_scaled_is_close(m.x, m.damping);
}

/// Damps the player's horizontal speed.
pub fn apply_movement_damping(player: &mut Playable)
    ensures
        final(player)@ == old(player)@.damped(),
        final(player).damping == old(player).damping,
        final(player).grounded == old(player).grounded,
        final(player).velocity.y == old(player).velocity.y,
        old(player).grounded && magnitude(old(player).velocity.x as int) <= STOP_SPEED
            ==> final(player).velocity.x == 0,
        !old(player).grounded ==> final(player).velocity.x == scaled(
            old(player).velocity.x as int,
            old(player).damping.hundredths(),
        ),
        magnitude(final(player).velocity.x as int) <= magnitude(old(player).velocity.x as int),
{
    let x: i64 = player.velocity.x;
    let percent: u8 = player.damping.percent();
    proof {
        lemma_scaled_is_close(x as int, percent as int);
    }
    if !player.grounded || x > STOP_SPEED || x < -STOP_SPEED {
        player.velocity.x = scale(x, percent);
    } else {
        player.velocity.x = 0;
    }
}

} // verus!
