use vstd::prelude::*;

use crate::geometry::{BOTTOM_BOUND, MAX_DT, TOP_BOUND};
use crate::state::{Ball, BallV};

verus! {

/// A ball at height `y` touches or overlaps the top or bottom wall.
pub open spec fn wall_reflects(y: int) -> bool {
    y >= TOP_BOUND || y <= BOTTOM_BOUND
}

/// One integration step: the position advances by `velocity * dt`, and the
/// vertical velocity is negated exactly when the new height reaches a wall.
/// The position is deliberately not clamped at the wall.
pub open spec fn move_ball_spec(b: BallV, dt: int) -> BallV {
    let x = b.x + b.vx * dt;
    let y = b.y + b.vy * dt;
    BallV { x, y, vx: b.vx, vy: if wall_reflects(y) { -b.vy } else { b.vy } }
}

/// Advances the ball by one frame of `dt` milliseconds: exact integration
/// of the position, then wall reflection of the vertical velocity.
pub fn move_ball(ball: &mut Ball, dt: i64)
    requires
        0 <= dt <= MAX_DT,
        old(ball)@.speed_ok(),
        old(ball)@.pos_ok(),
    ensures
        final(ball)@ == move_ball_spec(old(ball)@, dt as int),
        final(ball)@.x == old(ball)@.x + old(ball)@.vx * dt,
        final(ball)@.y == old(ball)@.y + old(ball)@.vy * dt,
        final(ball)@.vx == old(ball)@.vx,
        wall_reflects(final(ball)@.y) ==> final(ball)@.vy == -old(ball)@.vy,
        !wall_reflects(final(ball)@.y) ==> final(ball)@.vy == old(ball)@.vy,
        final(ball)@.speed_ok(),
{
    proof {
        // The literals are MAX_SPEED, MAX_DT and their product, spelled out
        // because the nonlinear query sees only the facts handed to it.
        assert(-1_000_000_000_000_000 <= ball.vx * dt <= 1_000_000_000_000_000)
            by (nonlinear_arith)
            requires
                -1_000_000 <= ball.vx <= 1_000_000,
                0 <= dt <= 1_000_000_000,
        ;
        assert(-1_000_000_000_000_000 <= ball.vy * dt <= 1_000_000_000_000_000)
            by (nonlinear_arith)
            requires
                -1_000_000 <= ball.vy <= 1_000_000,
                0 <= dt <= 1_000_000_000,
        ;
    }
    ball.x = ball.x + ball.vx * dt;
    ball.y = ball.y + ball.vy * dt;
    if ball.y >= TOP_BOUND || ball.y <= BOTTOM_BOUND {
        ball.vy = -ball.vy;
    }
}

/// Reflecting off a wall on two consecutive steps restores the original
/// sign of the vertical velocity: wall reflection is its own inverse.
pub proof fn lemma_double_reflection(b: BallV, dt1: int, dt2: int)
    requires
        wall_reflects(b.y + b.vy * dt1),
        wall_reflects(move_ball_spec(b, dt1).y + move_ball_spec(b, dt1).vy * dt2),
    ensures
        move_ball_spec(move_ball_spec(b, dt1), dt2).vy == b.vy,
{
}

} // verus!
