//! Fixed-point quantities and the controller's tuning constants.
//!
//! Speeds and positions are whole numbers of thousandths of a world unit
//! (per second, for speeds). Elapsed time is a whole number of microseconds.

use vstd::prelude::*;

verus! {

/// Thousandths in one world unit.
pub const MILLI: i64 = 1_000;

/// Microseconds in one second.
pub const MICROS_PER_SECOND: u64 = 1_000_000;

/// Horizontal acceleration while a direction key is held, in world units
/// per second per second.
pub const MOVE_SPEED: i64 = 30_000;

/// Largest horizontal speed that a move may leave behind, in thousandths.
pub const MAX_X_SPEED: i64 = 200_000;

/// Vertical speed added by one jump, in thousandths.
pub const JUMP_SPEED: i64 = 10_000_000;

/// Horizontal speed up to which a grounded player is stopped outright, in
/// thousandths.
pub const STOP_SPEED: i64 = 190_000;

/// Magnitude of `v`.
pub open spec fn magnitude(v: int) -> int {
    if v < 0 {
        -v
    } else {
        v
    }
}

/// `v` limited to the closed range from `lo` to `hi`.
pub open spec fn clamped(v: int, lo: int, hi: int) -> int {
    if v < lo {
        lo
    } else if v > hi {
        hi
    } else {
        v
    }
}

/// `v * percent / 100`, rounded toward zero.
pub open spec fn scaled(v: int, percent: int) -> int {
    if v < 0 {
        -((-v * percent) / 100)
    } else {
        (v * percent) / 100
    }
}

/// Scales `v` by `percent` hundredths, rounding toward zero.
pub fn scale(v: i64, percent: u8) -> (r: i64)
    requires
        percent <= 100,
    ensures
        r == scaled(v as int, percent as int),
{
    let size: u64 = if v < 0 {
        (-(v + 1)) as u64 + 1
    } else {
        v as u64
    };
    assert(0 <= size * percent <= size * 100) by (nonlinear_arith)
        requires
            0 <= percent <= 100,
    ;
    let part: u128 = (size as u128) * (percent as u128) / 100;
    if v < 0 {
        -(part as i128) as i64
    } else {
        part as i64
    }
}

} // verus!
