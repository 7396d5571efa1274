use vstd::prelude::*;

verus! {

// Playfield geometry and motion constants.
//
// Every length below is in milli-units: `UNIT` milli-units make one
// playfield unit.  Speeds are in playfield units per second, and elapsed
// time is measured in milliseconds, so `speed * dt` is exactly a length in
// milli-units.

/// Milli-units per playfield unit.
pub const UNIT: i64 = 1000;

/// Half the playfield height, in milli-units.  Both the wall bounds and the
/// paddle clamp bounds derive from this one value.
pub const HALF_SCREEN_HEIGHT: i64 = 150 * UNIT;

/// Half the playfield width, in milli-units.
pub const HALF_SCREEN_WIDTH: i64 = 250 * UNIT;

/// Playfield width, in milli-units.
pub const SCREEN_WIDTH: i64 = 2 * HALF_SCREEN_WIDTH;

/// Playfield height, in milli-units.
pub const SCREEN_HEIGHT: i64 = 2 * HALF_SCREEN_HEIGHT;

/// The top wall: the ball reflects when its centre reaches this height.
pub const TOP_BOUND: i64 = HALF_SCREEN_HEIGHT;

/// The bottom wall, mirror of `TOP_BOUND`.
pub const BOTTOM_BOUND: i64 = -HALF_SCREEN_HEIGHT;

/// Horizontal inset of each paddle from its screen edge, in milli-units.
pub const PADDLE_PADDING: i64 = 15 * UNIT;

/// Paddle thickness, in milli-units.
pub const PADDLE_WIDTH: i64 = 10 * UNIT;

/// Half a paddle's thickness; a paddle's faces lie at `x ± HALF_PADDLE_WIDTH`.
pub const HALF_PADDLE_WIDTH: i64 = 5 * UNIT;

/// Half a paddle's length; a paddle spans `y ± HALF_PADDLE_LENGTH`.  The
/// full length is one third of the playfield height.
pub const HALF_PADDLE_LENGTH: i64 = 50 * UNIT;

/// Paddle length, one third of the playfield height.
pub const PADDLE_LENGTH: i64 = 2 * HALF_PADDLE_LENGTH;

/// Vertical paddle speed while a key is held, in units per second.
pub const PADDLE_SPEED: i64 = 400;

/// Fixed horizontal position of the human paddle's centre (left side).
pub const HUMAN_PADDLE_X: i64 = -HALF_SCREEN_WIDTH + PADDLE_PADDING;

/// Fixed horizontal position of the CPU paddle's centre (right side).
pub const CPU_PADDLE_X: i64 = HALF_SCREEN_WIDTH - PADDLE_PADDING;

/// Ball radius, in milli-units (used by the presentation layer only; the
/// collision test works on the ball's centre).
pub const BALL_RADIUS: i64 = 6 * UNIT;

/// Base ball speed, in units per second.
pub const BALL_SPEED: i64 = 65;

/// Initial horizontal ball velocity, units per second.
pub const INIT_BALL_VX: i64 = -5 * BALL_SPEED;

/// Initial vertical ball velocity, units per second.
pub const INIT_BALL_VY: i64 = 5 * BALL_SPEED;

/// Highest allowed paddle centre.
pub const PADDLE_TOP_BOUND: i64 = HALF_SCREEN_HEIGHT - HALF_PADDLE_LENGTH;

/// Lowest allowed paddle centre, mirror of `PADDLE_TOP_BOUND`.
pub const PADDLE_BOTTOM_BOUND: i64 = -HALF_SCREEN_HEIGHT + HALF_PADDLE_LENGTH;

/// Largest frame delta accepted by the stepping functions, in milliseconds.
/// A machine limit: it keeps every product `speed * dt` inside `i64`.
pub const MAX_DT: i64 = 1_000_000_000;

/// Largest speed magnitude accepted by the stepping functions, in units per
/// second.  A machine limit, far beyond any speed the game produces.
pub const MAX_SPEED: i64 = 1_000_000;

/// Largest coordinate magnitude accepted by the stepping functions, in
/// milli-units.  A machine limit: one step from such a coordinate still
/// fits comfortably in `i64`.
pub const MAX_COORD: i64 = 1_000_000_000_000_000;

/// `v` pulled into the interval `[lo, hi]`.
pub open spec fn clamp(v: int, lo: int, hi: int) -> int {
    if v < lo {
        lo
    } else if v > hi {
        hi
    } else {
        v
    }
}

/// Executable counterpart of [`clamp`].
pub fn clamp_i64(v: i64, lo: i64, hi: i64) -> (r: i64)
    ensures
        r == clamp(v as int, lo as int, hi as int),
{
    if v < lo {
        lo
    } else if v > hi {
        hi
    } else {
        v
    }
}

} // verus!
