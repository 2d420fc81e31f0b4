//! The game subprocess's request loop, decided.
//!
//! A game binary run in machine mode reads one request per line and must
//! answer each with the matching discriminator; `Initialize` must come
//! first and only once. The line I/O and the JSON framing run outside;
//! this is the dispatch they drive, for the rock-paper-scissors game.

use vstd::prelude::*;
use crate::game::{GameRequest, GameResponse, response_matches};
use crate::rps::{game_wf, snapshot_wf, spec_advance, spec_interpreted, spec_state_report,
    RockPaperScissors};

verus! {

/// Why the game refuses a request; any of these ends the process.
#[derive(Debug, Clone, Copy, PartialEq, Eq, Structural)]
pub enum ProcessError {
    /// `Initialize` repeated, or any other request before it.
    OutOfOrder,
    /// The request named a player the game does not have.
    InvalidPlayer,
    /// The request carried a payload the game cannot hold (a malformed
    /// snapshot, out-of-range rules, an advance outside a running round).
    InvalidArgument,
}

/// Dispatches one request against the game, creating it on `Initialize`.
/// Every answer carries the request's own discriminator; a saved snapshot
/// is exactly the game's state, and a loaded one becomes exactly the
/// game's state.
pub fn handle_request(game: &mut Option<RockPaperScissors>, req: GameRequest<
    RockPaperScissors,
>) -> (r: Result<GameResponse<RockPaperScissors>, ProcessError>)
    requires
        (*old(game)) matches Some(g) ==> game_wf(g),
    ensures
        (*final(game)) matches Some(g) ==> game_wf(g),
        r matches Ok(resp) ==> response_matches(req, resp),
        (*old(game)) is None && !(req is Initialize) ==> r is Err && (*final(game)) is None,
        (*old(game)) is Some && req is Initialize ==> r is Err,
        (req is SaveSnapshot && (*old(game)) is Some) ==> ((r matches Ok(
            GameResponse::SaveSnapshot(snap),
        ) && snap == (*old(game))->Some_0.state) && *final(game) == *old(game)),
        (req is LoadSnapshot && (*old(game)) is Some && snapshot_wf(
            (*old(game))->Some_0.rules,
            req->LoadSnapshot_0,
        )) ==> (r matches Ok(GameResponse::LoadSnapshot) && ((*final(game)) matches Some(g2)
            && g2.rules == (*old(game))->Some_0.rules && g2.state == req->LoadSnapshot_0)),
        (req is State && (*old(game)) is Some) ==> (*final(game) == *old(game) && (r matches Ok(
            GameResponse::State(s),
        ) && spec_state_report((*old(game))->Some_0.rules, (*old(game))->Some_0.state, s))),
        (req is Advance && (*old(game)) is Some && r is Ok) ==> ({
            let g = (*old(game))->Some_0;
            &&& g.state.rounds_played < g.rules.num_rounds
            &&& (*final(game)) matches Some(g2) && g2.rules == g.rules && spec_advance(
                g.state,
                g2.state,
                req->Advance_tick,
                req->Advance_action,
            )
        }),
        (req is InterpretConsoleCommand && (*old(game)) is Some) ==> (*final(game) == *old(game)
            && (r matches Ok(GameResponse::InterpretConsoleCommand(out)) && (out matches Some(cr)
            && spec_interpreted(
            (*old(game))->Some_0.state,
            req->InterpretConsoleCommand_player,
            req->InterpretConsoleCommand_command@,
            cr,
        )))),
{
    match req {
        GameRequest::Initialize(setup) => {
            if game.is_some() {
                return Err(ProcessError::OutOfOrder);
            }
            if !(0 <= setup.rules.num_rounds && setup.rules.num_rounds
                <= 0x1fff_ffff_ffff_ffffi64) {
                return Err(ProcessError::InvalidArgument);
            }
            *game = Some(RockPaperScissors::new(setup.rules));
            Ok(GameResponse::Initialize)
        },
        GameRequest::LoadSnapshot(snap) => {
            match game {
                None => Err(ProcessError::OutOfOrder),
                Some(g) => {
                    let rules = g.rules;
                    let rounds_ok = 0 <= snap.rounds_played && snap.rounds_played
                        <= rules.num_rounds;
                    if !rounds_ok {
                        return Err(ProcessError::InvalidArgument);
                    }
                    let limit = 3 * snap.rounds_played;
                    let scores_ok = 0 <= snap.player0_score && snap.player0_score <= limit && 0
                        <= snap.player1_score && snap.player1_score <= limit;
                    let deadline_ok = if rules.turn_timeout.0 >= 0 {
                        snap.last_action.0 <= i64::MAX - rules.turn_timeout.0
                    } else {
                        snap.last_action.0 >= i64::MIN - rules.turn_timeout.0
                    };
                    if scores_ok && deadline_ok {
                        g.load_snapshot(snap);
                        Ok(GameResponse::LoadSnapshot)
                    } else {
                        Err(ProcessError::InvalidArgument)
                    }
                },
            }
        },
        GameRequest::SaveSnapshot => {
            match game {
                None => Err(ProcessError::OutOfOrder),
                Some(g) => Ok(GameResponse::SaveSnapshot(g.save_snapshot())),
            }
        },
        GameRequest::Advance { tick, action } => {
            match game {
                None => Err(ProcessError::OutOfOrder),
                Some(g) => {
                    if g.state.rounds_played >= g.rules.num_rounds {
                        return Err(ProcessError::InvalidArgument);
                    }
                    let tick_ok = if g.rules.turn_timeout.0 >= 0 {
                        tick.0 <= i64::MAX - g.rules.turn_timeout.0
                    } else {
                        tick.0 >= i64::MIN - g.rules.turn_timeout.0
                    };
                    if !tick_ok {
                        return Err(ProcessError::InvalidArgument);
                    }
                    g.advance(tick, action);
                    Ok(GameResponse::Advance)
                },
            }
        },
        GameRequest::State => {
            match game {
                None => Err(ProcessError::OutOfOrder),
                Some(g) => Ok(GameResponse::State(g.state())),
            }
        },
        GameRequest::RenderConsoleUi { player } => {
            match game {
                None => Err(ProcessError::OutOfOrder),
                Some(g) => {
                    match g.render_console_ui(player) {
                        Ok(ui) => Ok(GameResponse::RenderConsoleUi(ui)),
                        Err(_) => Err(ProcessError::InvalidPlayer),
                    }
                },
            }
        },
        GameRequest::InterpretConsoleCommand { player, command } => {
            match game {
                None => Err(ProcessError::OutOfOrder),
                Some(g) => Ok(
                    GameResponse::InterpretConsoleCommand(
                        g.interpret_console_command(player, command.as_str()),
                    ),
                ),
            }
        },
    }
}

} // verus!
