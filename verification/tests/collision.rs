use pong::collision::{check_collisions, check_collisions_simple};
use pong::geometry::{CPU_PADDLE_X, HALF_PADDLE_LENGTH, HALF_PADDLE_WIDTH, HUMAN_PADDLE_X};
use pong::state::{Ball, Paddle, ScoreEvent, Side};

const HUMAN_FACE: i64 = HUMAN_PADDLE_X + HALF_PADDLE_WIDTH;
const CPU_FACE: i64 = CPU_PADDLE_X - HALF_PADDLE_WIDTH;

#[test]
fn ball_on_human_face_inside_span_reflects() {
    let mut b = Ball { x: HUMAN_FACE, y: 10_000, vx: -325, vy: 325 };
    let human = Paddle { y: 0 };
    let cpu = Paddle { y: 0 };
    let ev = check_collisions(&mut b, &human, &cpu);
    assert_eq!(ev, None);
    assert_eq!(b.vx, 325);
    assert_eq!(b.x, HUMAN_FACE);
    assert_eq!(b.y, 10_000);
    assert_eq!(b.vy, 325);
}

#[test]
fn ball_at_span_edge_still_reflects() {
    let mut b = Ball { x: HUMAN_FACE, y: HALF_PADDLE_LENGTH, vx: -325, vy: -325 };
    let human = Paddle { y: 0 };
    let cpu = Paddle { y: 0 };
    let ev = check_collisions(&mut b, &human, &cpu);
    assert_eq!(ev, None);
    assert_eq!(b.vx, 325);
}

#[test]
fn ball_on_cpu_face_inside_span_reflects() {
    let mut b = Ball { x: CPU_FACE, y: -30_000, vx: 325, vy: 325 };
    let human = Paddle { y: 0 };
    let cpu = Paddle { y: -20_000 };
    let ev = check_collisions(&mut b, &human, &cpu);
    assert_eq!(ev, None);
    assert_eq!(b.vx, -325);
}

#[test]
fn ball_past_human_outside_span_concedes_human() {
    let mut b = Ball { x: HUMAN_FACE - 1, y: 90_000, vx: -325, vy: 325 };
    let human = Paddle { y: 0 };
    let cpu = Paddle { y: 0 };
    let ev = check_collisions(&mut b, &human, &cpu);
    assert_eq!(ev, Some(ScoreEvent { conceding: Side::Human }));
    // A scoring frame leaves the ball untouched.
    assert_eq!(b, Ball { x: HUMAN_FACE - 1, y: 90_000, vx: -325, vy: 325 });
}

#[test]
fn ball_past_cpu_outside_span_concedes_cpu() {
    let mut b = Ball { x: CPU_FACE + 1, y: 90_000, vx: 325, vy: 325 };
    let human = Paddle { y: 0 };
    let cpu = Paddle { y: 0 };
    let ev = check_collisions(&mut b, &human, &cpu);
    assert_eq!(ev, Some(ScoreEvent { conceding: Side::Cpu }));
}

#[test]
fn ball_well_beyond_the_outer_edge_still_concedes() {
    let mut b = Ball { x: HUMAN_PADDLE_X - HALF_PADDLE_WIDTH - 20_000, y: 120_000, vx: -325, vy: 325 };
    let human = Paddle { y: 0 };
    let cpu = Paddle { y: 0 };
    let ev = check_collisions(&mut b, &human, &cpu);
    assert_eq!(ev, Some(ScoreEvent { conceding: Side::Human }));
}

#[test]
fn ball_in_the_open_field_does_nothing() {
    let mut b = Ball { x: 0, y: 0, vx: -325, vy: 325 };
    let human = Paddle { y: 0 };
    let cpu = Paddle { y: 0 };
    let ev = check_collisions(&mut b, &human, &cpu);
    assert_eq!(ev, None);
    assert_eq!(b, Ball { x: 0, y: 0, vx: -325, vy: 325 });
}

#[test]
fn simple_variant_reflects_without_scoring() {
    let mut b = Ball { x: HUMAN_FACE - 1_000, y: 0, vx: -325, vy: 325 };
    let human = Paddle { y: 0 };
    let cpu = Paddle { y: 0 };
    check_collisions_simple(&mut b, &human, &cpu);
    assert_eq!(b.vx, 325);
}

#[test]
fn simple_variant_leaves_the_open_field_ball_alone() {
    // The two faces lie on opposite sides of the field, so no ball can
    // overlap both paddles at once and no double negation can happen.
    let mut b = Ball { x: 0, y: 0, vx: -325, vy: 325 };
    let human = Paddle { y: 0 };
    let cpu = Paddle { y: 0 };
    check_collisions_simple(&mut b, &human, &cpu);
    assert_eq!(b.vx, -325);
}
