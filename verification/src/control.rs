use vstd::prelude::*;

use crate::geometry::{
    clamp, clamp_i64, MAX_COORD, MAX_DT, PADDLE_BOTTOM_BOUND, PADDLE_SPEED, PADDLE_TOP_BOUND,
};
use crate::state::{paddle_in_bounds, Ball, Paddle};

verus! {

/// Direction asked for by the two paddle keys: up counts +1, down counts
/// -1, both held cancel to 0.
pub open spec fn key_direction(up: bool, down: bool) -> int {
    (if up { 1int } else { 0int }) - (if down { 1int } else { 0int })
}

/// One frame of input-driven paddle movement: the centre advances by
/// `direction * speed * dt` and is clamped to the playfield.
pub open spec fn move_paddle_spec(y: int, up: bool, down: bool, dt: int) -> int {
    clamp(
        y + key_direction(up, down) * PADDLE_SPEED * dt,
        PADDLE_BOTTOM_BOUND as int,
        PADDLE_TOP_BOUND as int,
    )
}

/// The CPU paddle's whole policy: sit at the ball's height, clamped to the
/// playfield.
pub open spec fn cpu_ai_spec(ball_y: int) -> int {
    clamp(ball_y, PADDLE_BOTTOM_BOUND as int, PADDLE_TOP_BOUND as int)
}

/// Moves the human paddle for one frame of `dt` milliseconds from the held
/// state of the up and down keys.  The result always lies within the clamp
/// bounds, however large `dt` is.
pub fn move_paddle(paddle: &mut Paddle, up: bool, down: bool, dt: i64)
    requires
        0 <= dt <= MAX_DT,
        -MAX_COORD <= old(paddle).y <= MAX_COORD,
    ensures
        final(paddle).y == move_paddle_spec(old(paddle).y as int, up, down, dt as int),
        paddle_in_bounds(final(paddle).y as int),
{
    let dir: i64 = (if up { 1 } else { 0 }) - (if down { 1 } else { 0 });
    let step: i64 = dir * PADDLE_SPEED;
    proof {
        // The literals are PADDLE_SPEED, MAX_DT and their product, spelled
        // out because the nonlinear query sees only the facts handed to it.
        assert(-400_000_000_000 <= step * dt <= 400_000_000_000) by (nonlinear_arith)
            requires
                -400 <= step <= 400,
                0 <= dt <= 1_000_000_000,
        ;
    }
    let delta: i64 = step * dt;
    paddle.y = clamp_i64(paddle.y + delta, PADDLE_BOTTOM_BOUND, PADDLE_TOP_BOUND);
}

/// Moves the CPU paddle for one frame: it tracks the ball's current height
/// directly, clamped to the playfield.  Stateless, so it depends only on
/// the ball.
pub fn cpu_ai(cpu: &mut Paddle, ball: &Ball)
    ensures
        final(cpu).y == cpu_ai_spec(ball@.y),
        paddle_in_bounds(final(cpu).y as int),
{
    cpu.y = clamp_i64(ball.y, PADDLE_BOTTOM_BOUND, PADDLE_TOP_BOUND);
}

/// The clamp keeps every input-driven paddle move inside the playfield
/// bounds, whatever the starting height, key state and elapsed time.
pub proof fn lemma_paddle_clamp(y: int, up: bool, down: bool, dt: int)
    ensures
        PADDLE_BOTTOM_BOUND <= move_paddle_spec(y, up, down, dt) <= PADDLE_TOP_BOUND,
{
}

} // verus!
