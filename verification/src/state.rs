use vstd::prelude::*;

use crate::geometry::{
    INIT_BALL_VX, INIT_BALL_VY, MAX_COORD, MAX_SPEED, PADDLE_BOTTOM_BOUND, PADDLE_TOP_BOUND,
};

verus! {

/// Score needed to win: the first side to reach it ends the game.
pub const WINNING_SCORE: u32 = 8;

/// Which player a value belongs to.
#[derive(Clone, Copy, Debug, PartialEq, Eq, Structural)]
pub enum Side {
    Human,
    Cpu,
}

/// Transient signal that the ball passed a paddle's plane without being
/// struck.  It carries the side that conceded; the other side scores.
#[derive(Clone, Copy, Debug, PartialEq, Eq, Structural)]
pub struct ScoreEvent {
    pub conceding: Side,
}

/// A paddle's mutable state: its vertical centre, in milli-units.  The
/// horizontal position is fixed per side ([`crate::geometry::HUMAN_PADDLE_X`]
/// and [`crate::geometry::CPU_PADDLE_X`]).
#[derive(Clone, Copy, Debug, PartialEq, Eq, Structural)]
pub struct Paddle {
    pub y: i64,
}

/// The ball: centre position in milli-units, velocity in units per second.
#[derive(Clone, Copy, Debug, PartialEq, Eq, Structural)]
pub struct Ball {
    pub x: i64,
    pub y: i64,
    pub vx: i64,
    pub vy: i64,
}

/// The two score counters.
#[derive(Clone, Copy, Debug, PartialEq, Eq, Structural)]
pub struct Score {
    pub human: u32,
    pub cpu: u32,
}

/// Everything that exists only while a game is being played: the two
/// paddles, the ball and the score.
#[derive(Clone, Copy, Debug, PartialEq, Eq, Structural)]
pub struct Session {
    pub human: Paddle,
    pub cpu: Paddle,
    pub ball: Ball,
    pub score: Score,
}

/// The coarse game mode.  Play state exists only while `InGame`.
#[derive(Clone, Copy, Debug, PartialEq, Eq, Structural)]
pub enum AppState {
    Menu,
    InGame,
    GameOver,
}

/// One frame's worth of raw input, read by the driver: the two paddle keys
/// as held state, and the start key as a single consumed press.
#[derive(Clone, Copy, Debug, PartialEq, Eq, Structural)]
pub struct FrameInput {
    pub up: bool,
    pub down: bool,
    pub start: bool,
}

/// The whole simulation context: the current phase and, while `InGame`,
/// the play state.
#[derive(Clone, Copy, Debug, PartialEq, Eq, Structural)]
pub struct Game {
    pub state: AppState,
    pub session: Option<Session>,
}

/// Mathematical model of a [`Ball`].
pub ghost struct BallV {
    pub x: int,
    pub y: int,
    pub vx: int,
    pub vy: int,
}

/// Mathematical model of a [`Score`].
pub ghost struct ScoreV {
    pub human: int,
    pub cpu: int,
}

/// Mathematical model of a [`Session`]; paddles are reduced to their
/// vertical centres.
pub ghost struct SessionV {
    pub human_y: int,
    pub cpu_y: int,
    pub ball: BallV,
    pub score: ScoreV,
}

/// Mathematical model of a [`Game`].
pub ghost struct GameV {
    pub state: AppState,
    pub session: Option<SessionV>,
}

impl View for Ball {
    type V = BallV;

    open spec fn view(&self) -> BallV {
        BallV { x: self.x as int, y: self.y as int, vx: self.vx as int, vy: self.vy as int }
    }
}

impl View for Score {
    type V = ScoreV;

    open spec fn view(&self) -> ScoreV {
        ScoreV { human: self.human as int, cpu: self.cpu as int }
    }
}

impl View for Session {
    type V = SessionV;

    open spec fn view(&self) -> SessionV {
        SessionV {
            human_y: self.human.y as int,
            cpu_y: self.cpu.y as int,
            ball: self.ball@,
            score: self.score@,
        }
    }
}

impl View for Game {
    type V = GameV;

    open spec fn view(&self) -> GameV {
        GameV {
            state: self.state,
            session: match self.session {
                Some(s) => Some(s@),
                None => None,
            },
        }
    }
}

/// A paddle centre inside the clamp interval.
pub open spec fn paddle_in_bounds(y: int) -> bool {
    PADDLE_BOTTOM_BOUND <= y <= PADDLE_TOP_BOUND
}

impl BallV {
    /// Velocity small enough that one integration step cannot overflow.
    pub open spec fn speed_ok(self) -> bool {
        &&& -MAX_SPEED <= self.vx <= MAX_SPEED
        &&& -MAX_SPEED <= self.vy <= MAX_SPEED
    }

    /// Position small enough that one integration step cannot overflow.
    pub open spec fn pos_ok(self) -> bool {
        &&& -MAX_COORD <= self.x <= MAX_COORD
        &&& -MAX_COORD <= self.y <= MAX_COORD
    }
}

impl SessionV {
    /// The play-state invariant: paddles clamped, score counters between 0
    /// and the winning threshold, ball speed within the machine limit.
    pub open spec fn wf(self) -> bool {
        &&& paddle_in_bounds(self.human_y)
        &&& paddle_in_bounds(self.cpu_y)
        &&& self.ball.speed_ok()
        &&& 0 <= self.score.human <= WINNING_SCORE
        &&& 0 <= self.score.cpu <= WINNING_SCORE
    }
}

impl GameV {
    /// The whole-game invariant: play state exists exactly while `InGame`,
    /// and is itself well formed.
    pub open spec fn wf(self) -> bool {
        &&& (self.state == AppState::InGame) <==> (self.session is Some)
        &&& match self.session {
            Some(s) => s.wf(),
            None => true,
        }
    }
}

/// The ball as it is launched: at the centre, moving toward the human side
/// and upward.
pub open spec fn initial_ball() -> BallV {
    BallV { x: 0, y: 0, vx: INIT_BALL_VX as int, vy: INIT_BALL_VY as int }
}

/// The play state as a round starts: paddles at their anchors, ball
/// launched from the centre, both counters at zero.
pub open spec fn initial_session() -> SessionV {
    SessionV {
        human_y: 0,
        cpu_y: 0,
        ball: initial_ball(),
        score: ScoreV { human: 0, cpu: 0 },
    }
}

/// Builds the play state for a fresh game: both paddles at their anchors,
/// the ball launched from the centre, both counters at zero.
pub fn ingame_setup() -> (s: Session)
    ensures
        s@ == initial_session(),
        s@.wf(),
{
    Session {
        human: Paddle { y: 0 },
        cpu: Paddle { y: 0 },
        ball: Ball { x: 0, y: 0, vx: INIT_BALL_VX, vy: INIT_BALL_VY },
        score: Score { human: 0, cpu: 0 },
    }
}

} // verus!
