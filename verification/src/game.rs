//! Game wire types.
//!
//! A game runs as an independent subprocess. Its standard input receives one
//! request object per line and its standard output returns one response
//! object per line; every response's discriminator must equal its request's.
//! The types here are the payloads of that protocol. Opaque blobs (snapshots,
//! actions and rules of a game the host does not understand) are carried as
//! their raw text.

use vstd::prelude::*;
use crate::tick::GameTick;

verus! {

/// The three payload types a game instance works with.
pub trait Game {
    /// Serializable whole-game state.
    type Snapshot;

    /// One player action.
    type Action;

    /// Game-type-specific configuration.
    type Rules;
}

/// A game whose payloads the host carries opaquely, as raw text.
pub struct GenericGame;

impl Game for GenericGame {
    type Snapshot = String;
    type Action = String;
    type Rules = String;
}

/// Marker for presentation payloads a game can render to.
pub trait GameUi {
}

/// A console rendering: the prompt to show the player.
#[derive(Debug, Clone)]
pub struct ConsoleUi {
    pub prompt: String,
}

impl GameUi for ConsoleUi {
}

/// What a game answers to a console command: optionally a new prompt to
/// display, and optionally an action to apply. Both absent means "ignore".
pub struct CommandResponse<T: GameUi, G: Game = GenericGame> {
    pub update_ui: Option<T>,
    pub advance: Option<<G as Game>::Action>,
}

impl<T: GameUi, G: Game> CommandResponse<T, G> {
    /// The response that neither updates the display nor advances the game.
    pub fn ignore() -> (r: CommandResponse<T, G>)
        ensures
            r.update_ui is None,
            r.advance is None,
    {
        CommandResponse { update_ui: None, advance: None }
    }
}

/// The in-progress half of a game's reported state: whose turn it is and
/// the logical deadline by which that player must act.
#[derive(Debug, Clone, PartialEq, Eq, Structural)]
pub struct InProgressGameState {
    pub player_turn: i32,
    pub deadline: GameTick,
}

/// One player's final standing.
#[derive(Debug, Clone, Copy, PartialEq, Eq, Structural)]
pub struct PlayerResult {
    pub score: i64,
}

/// The final standings of a completed game, indexed by player.
#[derive(Debug, Clone)]
pub struct GameResult {
    pub player_results: Vec<PlayerResult>,
}

/// A game's reported state: still in progress, or complete with results.
#[derive(Debug, Clone)]
pub enum GameState {
    InProgress(InProgressGameState),
    Complete(GameResult),
}

/// Everything a game needs to start: its type, the player count, a seed,
/// and the game-type-specific rules.
pub struct GameSetup<G: Game = GenericGame> {
    pub game_type: String,
    pub num_players: i32,
    pub seed: i64,
    pub rules: <G as Game>::Rules,
}

/// One request to a game subprocess.
pub enum GameRequest<G: Game = GenericGame> {
    Initialize(GameSetup<G>),
    LoadSnapshot(<G as Game>::Snapshot),
    SaveSnapshot,
    Advance { tick: GameTick, action: <G as Game>::Action },
    State,
    RenderConsoleUi { player: i32 },
    InterpretConsoleCommand { player: i32, command: String },
}

/// One response from a game subprocess.
pub enum GameResponse<G: Game = GenericGame> {
    Initialize,
    LoadSnapshot,
    SaveSnapshot(<G as Game>::Snapshot),
    Advance,
    State(GameState),
    RenderConsoleUi(Option<ConsoleUi>),
    InterpretConsoleCommand(Option<CommandResponse<ConsoleUi, G>>),
}

/// The discriminator shared by a request and its response.
#[derive(Debug, Clone, Copy, PartialEq, Eq, Structural)]
pub enum MessageTag {
    Initialize,
    LoadSnapshot,
    SaveSnapshot,
    Advance,
    State,
    RenderConsoleUi,
    InterpretConsoleCommand,
}

/// The discriminator of a request.
pub open spec fn spec_request_tag<G: Game>(req: GameRequest<G>) -> MessageTag {
    match req {
        GameRequest::Initialize(..) => MessageTag::Initialize,
        GameRequest::LoadSnapshot(..) => MessageTag::LoadSnapshot,
        GameRequest::SaveSnapshot => MessageTag::SaveSnapshot,
        GameRequest::Advance { .. } => MessageTag::Advance,
        GameRequest::State => MessageTag::State,
        GameRequest::RenderConsoleUi { .. } => MessageTag::RenderConsoleUi,
        GameRequest::InterpretConsoleCommand { .. } => MessageTag::InterpretConsoleCommand,
    }
}

/// The discriminator of a response.
pub open spec fn spec_response_tag<G: Game>(resp: GameResponse<G>) -> MessageTag {
    match resp {
        GameResponse::Initialize => MessageTag::Initialize,
        GameResponse::LoadSnapshot => MessageTag::LoadSnapshot,
        GameResponse::SaveSnapshot(..) => MessageTag::SaveSnapshot,
        GameResponse::Advance => MessageTag::Advance,
        GameResponse::State(..) => MessageTag::State,
        GameResponse::RenderConsoleUi(..) => MessageTag::RenderConsoleUi,
        GameResponse::InterpretConsoleCommand(..) => MessageTag::InterpretConsoleCommand,
    }
}

/// Whether `resp` is a well-formed answer to `req`: the discriminators match.
pub open spec fn response_matches<G: Game>(req: GameRequest<G>, resp: GameResponse<G>) -> bool {
    spec_request_tag(req) == spec_response_tag(resp)
}

impl<G: Game> GameRequest<G> {
    /// The discriminator of this request.
    pub fn tag(&self) -> (r: MessageTag)
        ensures
            r == spec_request_tag(*self),
    {
        match self {
            GameRequest::Initialize(..) => MessageTag::Initialize,
            GameRequest::LoadSnapshot(..) => MessageTag::LoadSnapshot,
            GameRequest::SaveSnapshot => MessageTag::SaveSnapshot,
            GameRequest::Advance { .. } => MessageTag::Advance,
            GameRequest::State => MessageTag::State,
            GameRequest::RenderConsoleUi { .. } => MessageTag::RenderConsoleUi,
            GameRequest::InterpretConsoleCommand { .. } => MessageTag::InterpretConsoleCommand,
        }
    }
}

impl<G: Game> GameResponse<G> {
    /// The discriminator of this response.
    pub fn tag(&self) -> (r: MessageTag)
        ensures
            r == spec_response_tag(*self),
    {
        match self {
            GameResponse::Initialize => MessageTag::Initialize,
            GameResponse::LoadSnapshot => MessageTag::LoadSnapshot,
            GameResponse::SaveSnapshot(..) => MessageTag::SaveSnapshot,
            GameResponse::Advance => MessageTag::Advance,
            GameResponse::State(..) => MessageTag::State,
            GameResponse::RenderConsoleUi(..) => MessageTag::RenderConsoleUi,
            GameResponse::InterpretConsoleCommand(..) => MessageTag::InterpretConsoleCommand,
        }
    }
}

} // verus!
