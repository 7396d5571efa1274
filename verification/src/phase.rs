use vstd::prelude::*;

use crate::collision::{check_collisions, check_collisions_spec};
use crate::control::{cpu_ai, cpu_ai_spec, move_paddle, move_paddle_spec};
use crate::geometry::MAX_DT;
use crate::physics::{move_ball, move_ball_spec};
use crate::scoring::{check_winner, reset_pos, reset_pos_spec, winner_reached};
use crate::state::{
    ingame_setup, initial_session, AppState, FrameInput, Game, GameV, Session, SessionV,
};

verus! {

/// The menu transition: the explicit start input, and nothing else, takes
/// the game from the menu into play.
pub open spec fn enter_game_spec(state: AppState, start_pressed: bool) -> AppState {
    if state == AppState::Menu && start_pressed {
        AppState::InGame
    } else {
        state
    }
}

/// Advances the phase from the menu: a consumed press of the start key
/// enters play; any other input, or any other phase, changes nothing.
pub fn enter_game(state: AppState, start_pressed: bool) -> (next: AppState)
    ensures
        next == enter_game_spec(state, start_pressed),
{
    match state {
        AppState::Menu => if start_pressed {
            AppState::InGame
        } else {
            AppState::Menu
        },
        _ => state,
    }
}

/// One frame of play, in the fixed pipeline order: input-driven paddle
/// move, ball integration, CPU paddle tracking the fresh ball height,
/// collision resolution, and a synchronous round reset if a side conceded.
pub open spec fn session_frame_spec(s: SessionV, input: FrameInput, dt: int) -> SessionV {
    let human_y = move_paddle_spec(s.human_y, input.up, input.down, dt);
    let ball_moved = move_ball_spec(s.ball, dt);
    let cpu_y = cpu_ai_spec(ball_moved.y);
    let resolved = check_collisions_spec(ball_moved, human_y, cpu_y);
    let mid = SessionV { human_y, cpu_y, ball: resolved.0, score: s.score };
    match resolved.1 {
        Some(ev) => reset_pos_spec(mid, ev),
        None => mid,
    }
}

/// One frame of the whole game.  The menu waits for the start input; play
/// runs [`session_frame_spec`] and ends, tearing the play state down, as
/// soon as a counter reaches the winning threshold; game over is terminal.
pub open spec fn frame_spec(g: GameV, input: FrameInput, dt: int) -> GameV {
    match g.state {
        AppState::Menu => if input.start {
            GameV { state: AppState::InGame, session: Some(initial_session()) }
        } else {
            g
        },
        AppState::InGame => match g.session {
            Some(s) => {
                let stepped = session_frame_spec(s, input, dt);
                if winner_reached(stepped.score) {
                    GameV { state: AppState::GameOver, session: None }
                } else {
                    GameV { state: AppState::InGame, session: Some(stepped) }
                }
            },
            None => g,
        },
        AppState::GameOver => g,
    }
}

/// Runs one frame of the game: `dt` milliseconds of simulated time under
/// the frame's input.  Preserves the game invariant.
pub fn frame(game: Game, input: FrameInput, dt: i64) -> (next: Game)
    requires
        0 <= dt <= MAX_DT,
        game@.wf(),
        game@.session matches Some(s) ==> s.ball.pos_ok(),
    ensures
        next@ == frame_spec(game@, input, dt as int),
        next@.wf(),
{
    match game.state {
        AppState::Menu => {
            if input.start {
                Game { state: AppState::InGame, session: Some(ingame_setup()) }
            } else {
                game
            }
        },
        AppState::InGame => {
            match game.session {
                Some(mut s) => {
                    move_paddle(&mut s.human, input.up, input.down, dt);
                    move_ball(&mut s.ball, dt);
                    cpu_ai(&mut s.cpu, &s.ball);
                    let ev = check_collisions(&mut s.ball, &s.human, &s.cpu);
                    if let Some(e) = ev {
                        reset_pos(&mut s, e);
                    }
                    if check_winner(&s.score) {
                        Game { state: AppState::GameOver, session: None }
                    } else {
                        Game { state: AppState::InGame, session: Some(s) }
                    }
                },
                None => {
                    // The invariant ties play state to the InGame phase, so
                    // this arm cannot be reached.
                    proof {
                        assert(false);
                    }
                    game
                },
            }
        },
        AppState::GameOver => game,
    }
}

impl Game {
    /// A fresh game: at the menu, with no play state yet.
    pub fn new() -> (g: Game)
        ensures
            g@ == (GameV { state: AppState::Menu, session: None }),
            g@.wf(),
    {
        Game { state: AppState::Menu, session: None }
    }
}

/// The menu never advances on its own: without the start input a menu
/// frame changes nothing, whatever else is pressed and however much time
/// passes.
pub proof fn lemma_menu_needs_start(g: GameV, input: FrameInput, dt: int)
    requires
        g.state == AppState::Menu,
        !input.start,
    ensures
        frame_spec(g, input, dt) == g,
{
}

/// Game over is terminal: no input and no elapsed time changes a finished
/// game, so play is never re-entered without a new game.
pub proof fn lemma_game_over_terminal(g: GameV, input: FrameInput, dt: int)
    requires
        g.state == AppState::GameOver,
    ensures
        frame_spec(g, input, dt) == g,
{
}

/// Play ends exactly at the winning threshold: a frame of play moves to
/// game over if and only if a counter has reached it once the frame's
/// scoring is in.
pub proof fn lemma_game_over_iff_winner(g: GameV, input: FrameInput, dt: int)
    requires
        g.state == AppState::InGame,
        g.session matches Some(s),
    ensures
        frame_spec(g, input, dt).state == AppState::GameOver <==> winner_reached(
            session_frame_spec(g.session.unwrap(), input, dt).score,
        ),
{
}

} // verus!
