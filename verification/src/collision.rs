use vstd::prelude::*;

use crate::geometry::{
    CPU_PADDLE_X, HALF_PADDLE_LENGTH, HALF_PADDLE_WIDTH, HUMAN_PADDLE_X, MAX_COORD,
};
use crate::state::{Ball, BallV, Paddle, ScoreEvent, Side};

verus! {

/// The ball overlaps the human paddle: its centre has crossed the paddle's
/// inner face and its height lies within the paddle's span.
pub open spec fn human_hit(b: BallV, human_y: int) -> bool {
    &&& b.x <= HUMAN_PADDLE_X + HALF_PADDLE_WIDTH
    &&& human_y - HALF_PADDLE_LENGTH <= b.y <= human_y + HALF_PADDLE_LENGTH
}

/// The ball overlaps the CPU paddle, mirror of [`human_hit`].
pub open spec fn cpu_hit(b: BallV, cpu_y: int) -> bool {
    &&& b.x >= CPU_PADDLE_X - HALF_PADDLE_WIDTH
    &&& cpu_y - HALF_PADDLE_LENGTH <= b.y <= cpu_y + HALF_PADDLE_LENGTH
}

/// The ball is strictly beyond the human paddle's inner face: on the human
/// side, past where a save was possible.
pub open spec fn passed_human(x: int) -> bool {
    x < HUMAN_PADDLE_X + HALF_PADDLE_WIDTH
}

/// The ball is strictly beyond the CPU paddle's inner face, mirror of
/// [`passed_human`].
pub open spec fn passed_cpu(x: int) -> bool {
    x > CPU_PADDLE_X - HALF_PADDLE_WIDTH
}

/// The scoring-aware resolver: on overlap with either paddle the
/// horizontal velocity is negated once and no event is emitted; otherwise,
/// a ball past a paddle's face makes that side concede.  At most one of
/// the two outcomes happens in a frame.
pub open spec fn check_collisions_spec(b: BallV, human_y: int, cpu_y: int) -> (BallV, Option<
    ScoreEvent,
>) {
    if human_hit(b, human_y) || cpu_hit(b, cpu_y) {
        (BallV { x: b.x, y: b.y, vx: -b.vx, vy: b.vy }, None)
    } else if passed_human(b.x) {
        (b, Some(ScoreEvent { conceding: Side::Human }))
    } else if passed_cpu(b.x) {
        (b, Some(ScoreEvent { conceding: Side::Cpu }))
    } else {
        (b, None)
    }
}

/// The simple reflect-only resolver, kept as a regression fixture: each
/// paddle is tested independently and each overlap negates the horizontal
/// velocity, so a frame in which both overlap negates it twice.  No
/// scoring.
pub open spec fn check_collisions_simple_spec(b: BallV, human_y: int, cpu_y: int) -> BallV {
    let vx1 = if human_hit(b, human_y) { -b.vx } else { b.vx };
    let vx2 = if cpu_hit(b, cpu_y) { -vx1 } else { vx1 };
    BallV { x: b.x, y: b.y, vx: vx2, vy: b.vy }
}

/// Resolves ball/paddle contact for one frame: reflects the ball off a
/// paddle it overlaps, or reports which side conceded when the ball has
/// passed a paddle's face.  Position and vertical velocity are untouched.
pub fn check_collisions(ball: &mut Ball, human: &Paddle, cpu: &Paddle) -> (ev: Option<ScoreEvent>)
    requires
        old(ball)@.speed_ok(),
        -MAX_COORD <= human.y <= MAX_COORD,
        -MAX_COORD <= cpu.y <= MAX_COORD,
    ensures
        final(ball)@ == check_collisions_spec(old(ball)@, human.y as int, cpu.y as int).0,
        ev == check_collisions_spec(old(ball)@, human.y as int, cpu.y as int).1,
        human_hit(old(ball)@, human.y as int) || cpu_hit(old(ball)@, cpu.y as int) ==> {
            &&& final(ball)@.vx == -old(ball)@.vx
            &&& ev is None
        },
        !(human_hit(old(ball)@, human.y as int) || cpu_hit(old(ball)@, cpu.y as int)) ==> {
            &&& *final(ball) == *old(ball)
            &&& passed_human(old(ball)@.x) ==> ev == Some(
                ScoreEvent { conceding: Side::Human },
            )
            &&& !passed_human(old(ball)@.x) && passed_cpu(old(ball)@.x) ==> ev == Some(
                ScoreEvent { conceding: Side::Cpu },
            )
            &&& !passed_human(old(ball)@.x) && !passed_cpu(old(ball)@.x) ==> ev is None
        },
        final(ball)@.speed_ok(),
{
    let human_top: i64 = human.y + HALF_PADDLE_LENGTH;
    let human_bottom: i64 = human.y - HALF_PADDLE_LENGTH;
    let cpu_top: i64 = cpu.y + HALF_PADDLE_LENGTH;
    let cpu_bottom: i64 = cpu.y - HALF_PADDLE_LENGTH;

    let hit_human = ball.x <= HUMAN_PADDLE_X + HALF_PADDLE_WIDTH && human_bottom <= ball.y
        && ball.y <= human_top;
    let hit_cpu = ball.x >= CPU_PADDLE_X - HALF_PADDLE_WIDTH && cpu_bottom <= ball.y
        && ball.y <= cpu_top;

    if hit_human || hit_cpu {
        ball.vx = -ball.vx;
        None
    } else if ball.x < HUMAN_PADDLE_X + HALF_PADDLE_WIDTH {
        Some(ScoreEvent { conceding: Side::Human })
    } else if ball.x > CPU_PADDLE_X - HALF_PADDLE_WIDTH {
        Some(ScoreEvent { conceding: Side::Cpu })
    } else {
        None
    }
}

/// The simple reflect-only resolver as an executable fixture.
pub fn check_collisions_simple(ball: &mut Ball, human: &Paddle, cpu: &Paddle)
    requires
        old(ball)@.speed_ok(),
        -MAX_COORD <= human.y <= MAX_COORD,
        -MAX_COORD <= cpu.y <= MAX_COORD,
    ensures
        final(ball)@ == check_collisions_simple_spec(old(ball)@, human.y as int, cpu.y as int),
        final(ball)@.speed_ok(),
{
    let human_top: i64 = human.y + HALF_PADDLE_LENGTH;
    let human_bottom: i64 = human.y - HALF_PADDLE_LENGTH;
    let cpu_top: i64 = cpu.y + HALF_PADDLE_LENGTH;
    let cpu_bottom: i64 = cpu.y - HALF_PADDLE_LENGTH;

    if ball.x <= HUMAN_PADDLE_X + HALF_PADDLE_WIDTH && human_bottom <= ball.y && ball.y
        <= human_top {
        ball.vx = -ball.vx;
    }
    if ball.x >= CPU_PADDLE_X - HALF_PADDLE_WIDTH && cpu_bottom <= ball.y && ball.y <= cpu_top {
        ball.vx = -ball.vx;
    }
}

/// A ball cannot be past both paddles' faces at once: the two scoring
/// conditions exclude each other, so a frame never yields both events.
pub proof fn lemma_pass_sides_exclusive(x: int)
    ensures
        !(passed_human(x) && passed_cpu(x)),
{
}

/// Reflection and scoring exclude each other: a frame that reflects the
/// ball emits no event, and a frame that emits an event leaves the ball
/// untouched.
pub proof fn lemma_reflect_xor_score(b: BallV, human_y: int, cpu_y: int)
    ensures
        check_collisions_spec(b, human_y, cpu_y).1 is Some ==> check_collisions_spec(
            b,
            human_y,
            cpu_y,
        ).0 == b,
        human_hit(b, human_y) || cpu_hit(b, cpu_y) ==> check_collisions_spec(
            b,
            human_y,
            cpu_y,
        ).1 is None,
{
}

/// A ball exactly on a paddle's inner face, at a height within the
/// paddle's span, is struck: its horizontal velocity reverses and no side
/// concedes.
pub proof fn lemma_edge_hit_reflects(b: BallV, human_y: int, cpu_y: int)
    requires
        b.x == HUMAN_PADDLE_X + HALF_PADDLE_WIDTH,
        human_y - HALF_PADDLE_LENGTH <= b.y <= human_y + HALF_PADDLE_LENGTH,
    ensures
        check_collisions_spec(b, human_y, cpu_y).0.vx == -b.vx,
        check_collisions_spec(b, human_y, cpu_y).1 is None,
{
}

} // verus!
