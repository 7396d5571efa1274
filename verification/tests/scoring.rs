use pong::geometry::{INIT_BALL_VX, INIT_BALL_VY};
use pong::scoring::{check_winner, reset_pos};
use pong::state::{Ball, Paddle, Score, ScoreEvent, Session, Side, WINNING_SCORE};

fn mid_rally_session() -> Session {
    Session {
        human: Paddle { y: 40_000 },
        cpu: Paddle { y: -30_000 },
        ball: Ball { x: -240_000, y: 90_000, vx: -325, vy: -325 },
        score: Score { human: 3, cpu: 5 },
    }
}

#[test]
fn human_concession_scores_for_cpu() {
    let mut s = mid_rally_session();
    reset_pos(&mut s, ScoreEvent { conceding: Side::Human });
    assert_eq!(s.score.cpu, 6);
    assert_eq!(s.score.human, 3);
}

#[test]
fn cpu_concession_scores_for_human() {
    let mut s = mid_rally_session();
    reset_pos(&mut s, ScoreEvent { conceding: Side::Cpu });
    assert_eq!(s.score.human, 4);
    assert_eq!(s.score.cpu, 5);
}

#[test]
fn reset_restores_the_spawn_positions_exactly() {
    let mut s = mid_rally_session();
    reset_pos(&mut s, ScoreEvent { conceding: Side::Human });
    assert_eq!(s.human.y, 0);
    assert_eq!(s.cpu.y, 0);
    assert_eq!(s.ball, Ball { x: 0, y: 0, vx: INIT_BALL_VX, vy: INIT_BALL_VY });
    assert_eq!(s.ball.vx, -325);
    assert_eq!(s.ball.vy, 325);
}

#[test]
fn winner_is_reported_only_at_the_threshold() {
    assert!(!check_winner(&Score { human: 0, cpu: 0 }));
    assert!(!check_winner(&Score { human: 7, cpu: 7 }));
    assert!(check_winner(&Score { human: WINNING_SCORE, cpu: 0 }));
    assert!(check_winner(&Score { human: 0, cpu: WINNING_SCORE }));
}
