use vstd::prelude::*;

use crate::state::{
    initial_ball, Ball, Score, ScoreEvent, ScoreV, Session, SessionV, Side, WINNING_SCORE,
};
use crate::geometry::{INIT_BALL_VX, INIT_BALL_VY};

verus! {

/// One round reset: both paddles return to their anchors, the ball is
/// relaunched from the centre with its fixed initial velocity, and the
/// side opposite the conceding one gains exactly one point.
pub open spec fn reset_pos_spec(s: SessionV, ev: ScoreEvent) -> SessionV {
    SessionV {
        human_y: 0,
        cpu_y: 0,
        ball: initial_ball(),
        score: ScoreV {
            human: if ev.conceding == Side::Cpu {
                s.score.human + 1
            } else {
                s.score.human
            },
            cpu: if ev.conceding == Side::Human {
                s.score.cpu + 1
            } else {
                s.score.cpu
            },
        },
    }
}

/// Either counter has reached the winning threshold.
pub open spec fn winner_reached(sc: ScoreV) -> bool {
    sc.human >= WINNING_SCORE || sc.cpu >= WINNING_SCORE
}

/// Consumes one scoring event: resets both paddles and the ball to their
/// spawn state and increments the scoring side's counter by exactly one.
pub fn reset_pos(session: &mut Session, ev: ScoreEvent)
    requires
        old(session).score.human < u32::MAX,
        old(session).score.cpu < u32::MAX,
    ensures
        final(session)@ == reset_pos_spec(old(session)@, ev),
{
    session.human.y = 0;
    session.cpu.y = 0;
    session.ball = Ball { x: 0, y: 0, vx: INIT_BALL_VX, vy: INIT_BALL_VY };
    match ev.conceding {
        Side::Human => {
            session.score.cpu = session.score.cpu + 1;
        },
        Side::Cpu => {
            session.score.human = session.score.human + 1;
        },
    }
}

/// Reports whether the game is over: true exactly when either counter has
/// reached the winning threshold.
pub fn check_winner(score: &Score) -> (over: bool)
    ensures
        over == winner_reached(score@),
{
    score.human >= WINNING_SCORE || score.cpu >= WINNING_SCORE
}

/// A round reset is monotone in the score: the total rises by exactly one,
/// the side opposite the conceding one gains exactly one point, the other
/// counter is untouched, and every position equals its spawn value.
pub proof fn lemma_score_monotonic(s: SessionV, ev: ScoreEvent)
    ensures
        reset_pos_spec(s, ev).score.human + reset_pos_spec(s, ev).score.cpu == s.score.human
            + s.score.cpu + 1,
        ev.conceding == Side::Human ==> reset_pos_spec(s, ev).score.cpu == s.score.cpu + 1
            && reset_pos_spec(s, ev).score.human == s.score.human,
        ev.conceding == Side::Cpu ==> reset_pos_spec(s, ev).score.human == s.score.human + 1
            && reset_pos_spec(s, ev).score.cpu == s.score.cpu,
        reset_pos_spec(s, ev).human_y == 0,
        reset_pos_spec(s, ev).cpu_y == 0,
        reset_pos_spec(s, ev).ball == initial_ball(),
{
}

} // verus!
