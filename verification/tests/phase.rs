use pong::phase::{enter_game, frame};
use pong::state::{AppState, Ball, FrameInput, Game, Paddle, Score, Session};

const IDLE: FrameInput = FrameInput { up: false, down: false, start: false };
const START: FrameInput = FrameInput { up: false, down: false, start: true };

#[test]
fn menu_waits_for_the_start_input() {
    let mut g = Game::new();
    assert_eq!(g.state, AppState::Menu);
    for _ in 0..100 {
        g = frame(g, IDLE, 16);
        assert_eq!(g.state, AppState::Menu);
        assert!(g.session.is_none());
    }
    // Paddle keys alone do not start the game either.
    g = frame(g, FrameInput { up: true, down: true, start: false }, 16);
    assert_eq!(g.state, AppState::Menu);
}

#[test]
fn start_input_enters_the_game_with_fresh_state() {
    let g = frame(Game::new(), START, 16);
    assert_eq!(g.state, AppState::InGame);
    let s = g.session.expect("play state exists while InGame");
    assert_eq!(s.human.y, 0);
    assert_eq!(s.cpu.y, 0);
    assert_eq!(s.ball, Ball { x: 0, y: 0, vx: -325, vy: 325 });
    assert_eq!(s.score, Score { human: 0, cpu: 0 });
}

#[test]
fn enter_game_is_a_pure_menu_transition() {
    assert_eq!(enter_game(AppState::Menu, true), AppState::InGame);
    assert_eq!(enter_game(AppState::Menu, false), AppState::Menu);
    assert_eq!(enter_game(AppState::InGame, true), AppState::InGame);
    assert_eq!(enter_game(AppState::GameOver, true), AppState::GameOver);
}

#[test]
fn game_over_is_terminal() {
    let over = Game { state: AppState::GameOver, session: None };
    let g = frame(over, START, 1_000);
    assert_eq!(g.state, AppState::GameOver);
    assert!(g.session.is_none());
}

#[test]
fn eighth_point_ends_the_game() {
    // Human at seven points; the ball is past the CPU paddle's face and
    // above any height the clamped CPU paddle can cover, so this frame
    // concedes the point that reaches the threshold.
    let g = Game {
        state: AppState::InGame,
        session: Some(Session {
            human: Paddle { y: 0 },
            cpu: Paddle { y: 0 },
            ball: Ball { x: 230_000, y: 160_000, vx: 325, vy: 325 },
            score: Score { human: 7, cpu: 0 },
        }),
    };
    let g = frame(g, IDLE, 10);
    assert_eq!(g.state, AppState::GameOver);
    // Play state is torn down on leaving InGame.
    assert!(g.session.is_none());
}

#[test]
fn seven_points_do_not_end_the_game() {
    let g = Game {
        state: AppState::InGame,
        session: Some(Session {
            human: Paddle { y: 0 },
            cpu: Paddle { y: 0 },
            ball: Ball { x: 230_000, y: 160_000, vx: 325, vy: 325 },
            score: Score { human: 6, cpu: 0 },
        }),
    };
    let g = frame(g, IDLE, 10);
    assert_eq!(g.state, AppState::InGame);
    let s = g.session.expect("still playing");
    assert_eq!(s.score.human, 7);
    // The round was reset after the concession.
    assert_eq!(s.ball, Ball { x: 0, y: 0, vx: -325, vy: 325 });
}
