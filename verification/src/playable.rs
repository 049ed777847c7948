//! The playable character: the state that the controller owns.

use vstd::prelude::*;

verus! {

/// Linear velocity, in thousandths of a world unit per second.
#[derive(Clone, Copy, Debug, PartialEq, Eq)]
pub struct Velocity {
    pub x: i64,
    pub y: i64,
}

/// Share of the horizontal speed that survives one tick of damping, in
/// hundredths. It never exceeds one hundred, so damping never speeds the
/// player up.
#[derive(Clone, Copy, Debug, PartialEq, Eq)]
pub struct MovementDampingFactor {
    percent: u8,
}

impl MovementDampingFactor {
    #[verifier::type_invariant]
    spec fn in_range(self) -> bool {
        self.percent <= 100
    }

    /// The factor, in hundredths.
    pub closed spec fn hundredths(self) -> int {
        self.percent as int
    }

    /// A factor of `percent` hundredths, if that is at most one hundred.
    pub fn new(percent: u8) -> (made: Option<MovementDampingFactor>)
        ensures
            made is Some <==> percent <= 100,
            made is Some ==> made.unwrap().hundredths() == percent,
    {
        if percent <= 100 {
            Some(MovementDampingFactor { percent })
        } else {
            None
        }
    }

    /// The factor, in hundredths.
    pub fn percent(&self) -> (p: u8)
        ensures
            p == self.hundredths(),
            p <= 100,
    {
        proof {
            use_type_invariant(self);
        }
        self.percent
    }
}

/// State of the playable character between two stages of a tick.
#[derive(Clone, Copy, Debug, PartialEq, Eq)]
pub struct Playable {
    pub velocity: Velocity,
    /// Whether the last scan of the contacts found support below the player.
    pub grounded: bool,
    pub damping: MovementDampingFactor,
}

/// The player as the mathematics sees it: unbounded speeds, in thousandths of
/// a world unit per second.
pub struct Motion {
    pub x: int,
    pub y: int,
    pub grounded: bool,
    /// Damping factor, in hundredths.
    pub damping: int,
}

impl View for Playable {
    type V = Motion;

    open spec fn view(&self) -> Motion {
        Motion {
            x: self.velocity.x as int,
            y: self.velocity.y as int,
            grounded: self.grounded,
            damping: self.damping.hundredths(),
        }
    }
}

/// The damping factor that the player is created with, in hundredths.
pub const DAMPING_PERCENT: u8 = 92;

/// The player at its creation: at rest, not yet known to stand on anything.
pub open spec fn spawned() -> Motion {
    Motion { x: 0, y: 0, grounded: false, damping: DAMPING_PERCENT as int }
}

/// Creates the player's state.
pub fn spawn_player() -> (player: Playable)
    ensures
        player@ == spawned(),
        player@.valid(),
{
    Playable {
        velocity: Velocity { x: 0, y: 0 },
        grounded: false,
        damping: MovementDampingFactor { percent: DAMPING_PERCENT },
    }
}

impl Motion {
    /// The damping factor is a share of the whole.
    pub open spec fn valid(self) -> bool {
        0 <= self.damping <= 100
    }

    /// Both speeds can be stored.
    pub open spec fn fits(self) -> bool {
        i64::MIN <= self.x <= i64::MAX && i64::MIN <= self.y <= i64::MAX
    }
}

} // verus!
