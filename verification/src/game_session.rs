//! The game session actor's decisions.
//!
//! One actor coordinates each running game: it owns the subprocess driver,
//! admits at most the declared number of players, serializes player actions
//! in arrival order, enforces per-player deadlines in game ticks, snapshots
//! after every advance, and finishes the game when the subprocess reports
//! completion. The subprocess I/O, persistence and timers run outside;
//! every decision is made here.

use vstd::prelude::*;
use crate::game::{CommandResponse, ConsoleUi, GameResult, GameState, GenericGame};
use crate::ids::GameId;
use crate::tick::GameTick;

verus! {

/// Where the game stands, as last reported by the subprocess.
#[derive(Debug, Clone, Copy, PartialEq, Eq, Structural)]
pub enum GameSessionPhase {
    /// No state report yet (snapshot still loading).
    Loading,
    /// The game runs: this player must act by this logical deadline.
    InProgress { player_turn: i32, deadline: GameTick },
    /// The subprocess reported completion.
    Complete,
    /// The driver failed; nothing further is persisted.
    Failed,
}

/// What the session asks its runtime to do next.
#[derive(Debug, Clone)]
pub enum GameSessionAction {
    /// Ask the driver for the game state.
    QueryState,
    /// Hand a player's line to the game for interpretation.
    InterpretCommand { player: i32, line: String },
    /// Advance the game; `None` is the synthesized action of an elapsed
    /// deadline.
    Advance { tick: GameTick, action: Option<String> },
    /// Take a snapshot and persist it in a transaction.
    SaveSnapshot,
    /// Show one player a prompt.
    ShowPrompt { player: i32, prompt: String },
    /// Persist the results, message the participants, and exit.
    CompleteGame(GameResult),
    /// Exit with an internal error; persist nothing further.
    Terminate,
}

/// The coordinator state of one running game.
#[derive(Debug)]
pub struct GameSessionState {
    pub game_id: GameId,
    pub num_players: i32,
    pub players: Vec<i32>,
    pub phase: GameSessionPhase,
    pub snapshot_retried: bool,
}

impl GameSessionState {
    /// A fresh session for a game declared for `num_players` players.
    pub fn new(game_id: GameId, num_players: i32) -> (r: GameSessionState)
        requires
            num_players >= 0,
        ensures
            r.game_id == game_id,
            r.num_players == num_players,
            r.players@.len() == 0,
            r.phase == GameSessionPhase::Loading,
            !r.snapshot_retried,
    {
        GameSessionState {
            game_id,
            num_players,
            players: Vec::new(),
            phase: GameSessionPhase::Loading,
            snapshot_retried: false,
        }
    }

    /// Admits a player seat: at most `num_players` may be seated; an
    /// extra entrant is refused and not inserted.
    pub fn handle_enter(&mut self, player_index: i32) -> (admitted: bool)
        ensures
            final(self).game_id == old(self).game_id,
            final(self).num_players == old(self).num_players,
            final(self).phase == old(self).phase,
            final(self).snapshot_retried == old(self).snapshot_retried,
            admitted == (old(self).players@.len() < old(self).num_players),
            admitted ==> final(self).players@ == old(self).players@.push(player_index),
            !admitted ==> final(self).players@ == old(self).players@,
    {
        if self.num_players > 0 && self.players.len() < self.num_players as usize {
            self.players.push(player_index);
            true
        } else {
            false
        }
    }

    /// Applies a state report from the subprocess: in progress arms that
    /// player's deadline; complete finishes the game.
    pub fn apply_state(&mut self, state: &GameState) -> (r: Option<GameSessionAction>)
        ensures
            final(self).game_id == old(self).game_id,
            final(self).num_players == old(self).num_players,
            final(self).players@ == old(self).players@,
            final(self).snapshot_retried == old(self).snapshot_retried,
            match *state {
                GameState::InProgress(p) => final(self).phase == (GameSessionPhase::InProgress {
                    player_turn: p.player_turn,
                    deadline: p.deadline,
                }) && r is None,
                GameState::Complete(c) => final(self).phase == GameSessionPhase::Complete && (
                r matches Some(GameSessionAction::CompleteGame(res)) && res.player_results@
                    == c.player_results@),
            },
    {
        match state {
            GameState::InProgress(p) => {
                self.phase = GameSessionPhase::InProgress {
                    player_turn: p.player_turn,
                    deadline: p.deadline,
                };
                None
            },
            GameState::Complete(c) => {
                self.phase = GameSessionPhase::Complete;
                Some(
                    GameSessionAction::CompleteGame(
                        GameResult { player_results: clone_results(&c.player_results) },
                    ),
                )
            },
        }
    }

    /// A player's line: handed to the game for interpretation, whoever's
    /// turn it is — the game renders out-of-turn input without advancing.
    pub fn handle_player_line(&self, player: i32, line: String) -> (r: GameSessionAction)
        ensures
            r matches GameSessionAction::InterpretCommand { player: p, line: l } && p == player
                && l == line,
    {
        GameSessionAction::InterpretCommand { player, line }
    }

    /// Applies the game's answer to an interpreted command: a prompt is
    /// shown to that player; an action advances the game only when it came
    /// from the player whose turn it is while the game runs.
    pub fn handle_interpret_response(
        &self,
        player: i32,
        response: Option<CommandResponse<ConsoleUi, GenericGame>>,
        now: GameTick,
    ) -> (r: Vec<GameSessionAction>)
        ensures
            match response {
                None => r@.len() == 0,
                Some(cr) => {
                    let prompts: int = if cr.update_ui is Some {
                        1
                    } else {
                        0
                    };
                    let advances: int = if cr.advance is Some && self.may_advance(player) {
                        1
                    } else {
                        0
                    };
                    &&& r@.len() == prompts + advances
                    &&& (cr.update_ui matches Some(ui) ==> (r@[0] matches
                        GameSessionAction::ShowPrompt { player: p, prompt } && p == player
                        && prompt == ui.prompt))
                    &&& ((cr.advance is Some && self.may_advance(player)) ==> (r@[prompts]
                        matches GameSessionAction::Advance { tick, action } && tick == now
                        && action == cr.advance))
                },
            },
    {
        let mut actions: Vec<GameSessionAction> = Vec::new();
        match response {
            None => actions,
            Some(cr) => {
                if let Some(ui) = cr.update_ui {
                    actions.push(GameSessionAction::ShowPrompt { player, prompt: ui.prompt });
                }
                if let Some(a) = cr.advance {
                    let allowed = match self.phase {
                        GameSessionPhase::InProgress { player_turn, deadline: _ } => player_turn
                            == player,
                        _ => false,
                    };
                    if allowed {
                        actions.push(GameSessionAction::Advance { tick: now, action: Some(a) });
                    }
                }
                actions
            },
        }
    }

    /// Whether an action from `player` may advance the game now: the game
    /// runs and it is that player's turn.
    pub open spec fn may_advance(&self, player: i32) -> bool {
        self.phase matches GameSessionPhase::InProgress { player_turn, .. } && player_turn
            == player
    }

    /// The deadline check: when the running game's deadline has passed,
    /// the session synthesizes an advance with no action — the game is
    /// responsible for the absent-action case (a timeout forfeit).
    pub fn deadline_elapsed(&self, now: GameTick) -> (r: Option<GameSessionAction>)
        ensures
            match self.phase {
                GameSessionPhase::InProgress { player_turn, deadline } => {
                    if now.0 >= deadline.0 {
                        r matches Some(GameSessionAction::Advance { tick, action }) && tick == now
                            && action is None
                    } else {
                        r is None
                    }
                },
                _ => r is None,
            },
    {
        match self.phase {
            GameSessionPhase::InProgress { player_turn: _, deadline } => {
                if now.reached(deadline) {
                    Some(GameSessionAction::Advance { tick: now, action: None })
                } else {
                    None
                }
            },
            _ => None,
        }
    }

    /// After every successful advance: snapshot, then ask for the state.
    pub fn advance_succeeded(&self) -> (r: Vec<GameSessionAction>)
        ensures
            r@.len() == 2,
            r@[0] is SaveSnapshot,
            r@[1] is QueryState,
    {
        let mut actions: Vec<GameSessionAction> = Vec::new();
        actions.push(GameSessionAction::SaveSnapshot);
        actions.push(GameSessionAction::QueryState);
        actions
    }

    /// A snapshot write landed: the retry budget is fresh again.
    pub fn snapshot_succeeded(&mut self)
        ensures
            final(self).game_id == old(self).game_id,
            final(self).num_players == old(self).num_players,
            final(self).players@ == old(self).players@,
            final(self).phase == old(self).phase,
            !final(self).snapshot_retried,
    {
        self.snapshot_retried = false;
    }

    /// A snapshot write failed: retried once, and fatal the second time.
    pub fn snapshot_failed(&mut self) -> (r: GameSessionAction)
        ensures
            final(self).game_id == old(self).game_id,
            final(self).num_players == old(self).num_players,
            final(self).players@ == old(self).players@,
            if old(self).snapshot_retried {
                r is Terminate && final(self).phase == GameSessionPhase::Failed
                    && final(self).snapshot_retried
            } else {
                r is SaveSnapshot && final(self).snapshot_retried && final(self).phase == old(
                    self,
                ).phase
            },
    {
        if self.snapshot_retried {
            self.phase = GameSessionPhase::Failed;
            GameSessionAction::Terminate
        } else {
            self.snapshot_retried = true;
            GameSessionAction::SaveSnapshot
        }
    }

    /// On graceful shutdown one last snapshot is taken — unless the
    /// driver already failed, after which nothing further is persisted.
    pub fn graceful_shutdown(&self) -> (r: Option<GameSessionAction>)
        ensures
            match self.phase {
                GameSessionPhase::Failed => r is None,
                _ => r matches Some(a) && a is SaveSnapshot,
            },
    {
        match self.phase {
            GameSessionPhase::Failed => None,
            _ => Some(GameSessionAction::SaveSnapshot),
        }
    }

    /// The driver failed (the subprocess died, or answered with the wrong
    /// discriminator): the session persists nothing further and exits.
    pub fn driver_failed(&mut self) -> (r: GameSessionAction)
        ensures
            final(self).game_id == old(self).game_id,
            final(self).num_players == old(self).num_players,
            final(self).players@ == old(self).players@,
            final(self).phase == GameSessionPhase::Failed,
            r is Terminate,
    {
        self.phase = GameSessionPhase::Failed;
        GameSessionAction::Terminate
    }
}

/// Copies a result list.
#[verifier::loop_isolation(false)]
fn clone_results(v: &Vec<crate::game::PlayerResult>) -> (r: Vec<crate::game::PlayerResult>)
    ensures
        r@ == v@,
{
    let mut r: Vec<crate::game::PlayerResult> = Vec::new();
    let n = v.len();
    let mut i: usize = 0;
    while i < n
        invariant
            0 <= i <= n == v@.len(),
            r@ == v@.subrange(0, i as int),
        decreases n - i,
    {
        r.push(v[i]);
        proof {
            assert(v@.subrange(0, i as int + 1) =~= v@.subrange(0, i as int).push(v@[i as int]));
        }
        i = i + 1;
    }
    proof {
        assert(v@.subrange(0, n as int) =~= v@);
    }
    r
}

} // verus!
