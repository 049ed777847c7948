//! A character controller for a two-dimensional platformer.
//!
//! The controller sits on top of a physics engine. The engine owns gravity,
//! collisions and the integration of positions; the controller owns what the
//! player does to its own velocity. Each tick runs four stages in a fixed
//! order:
//!
//! 1. the grounded detector ([`ground`]) sets the grounded flag from what the
//!    player touches,
//! 2. the input mapper ([`keyboard`], [`input`]) turns the keys into movement
//!    events,
//! 3. the movement applier ([`movement`]) lets the events act on the
//!    velocity,
//! 4. the damping applier ([`damping`]) slows the horizontal speed.
//!
//! [`tick`] runs the four together.
//!
//! All quantities are integers ([`units`]): speeds and positions in
//! thousandths of a world unit, time in microseconds. The same inputs give
//! the same velocities on every machine, and every rule of the controller is
//! stated and proved over the integers.

pub mod damping;
pub mod ground;
pub mod input;
pub mod keyboard;
pub mod movement;
pub mod playable;
pub mod scene;
pub mod tick;
pub mod units;
