//! The two bodies of the scene, as the physics engine is to create them.
//!
//! Lengths and positions are in thousandths of a world unit.

use vstd::prelude::*;

verus! {

/// Downward pull on every dynamic body, in thousandths of a world unit per
/// second per second. The vertical axis points up.
pub const GRAVITY_Y: i64 = -1_000_000;

/// How the physics engine treats a body.
#[derive(Clone, Copy, Debug, PartialEq, Eq)]
pub enum BodyKind {
    /// Moved by forces, velocity and collisions.
    Dynamic,
    /// Never moves.
    Static,
}

/// A rigid body with a rectangular collider, centred on its position.
#[derive(Clone, Copy, Debug, PartialEq, Eq)]
pub struct Body {
    pub kind: BodyKind,
    pub width: i64,
    pub height: i64,
    pub x: i64,
    pub y: i64,
}

/// The player's body: dynamic, 22 by 34 units, at the origin.
pub open spec fn player_rectangle() -> Body {
    Body { kind: BodyKind::Dynamic, width: 22_000, height: 34_000, x: 0, y: 0 }
}

/// The floor: static, 3000 by 30 units, 400 units below the origin.
pub open spec fn floor_rectangle() -> Body {
    Body { kind: BodyKind::Static, width: 3_000_000, height: 30_000, x: 0, y: (-400_000) as i64 }
}

/// The body that the player is created with.
pub fn player_body() -> (body: Body)
    ensures
        body == player_rectangle(),
{
    Body { kind: BodyKind::Dynamic, width: 22_000, height: 34_000, x: 0, y: 0 }
}

/// The floor that the scene is created with.
pub fn spawn_floor() -> (body: Body)
    ensures
        body == floor_rectangle(),
        body.y + body.height / 2 < player_rectangle().y - player_rectangle().height / 2,
{
    Body { kind: BodyKind::Static, width: 3_000_000, height: 30_000, x: 0, y: -400_000 }
}

} // verus!
