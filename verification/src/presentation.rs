//! Messages between presentations, connection actors and sessions.
//!
//! A presentation (an SSH terminal today) talks to one connection actor
//! per login; the connection actor talks to persistence and to at most one
//! session actor. These are the typed envelopes they exchange. Timestamps
//! travel as seconds since the Unix epoch.

use vstd::prelude::*;
use crate::ids::{GameId, GameProposalId, MessageId, RequestId, SessionId, UserId};

verus! {

/// The transports a user can be connected through.
#[derive(Debug, Clone, Copy, PartialEq, Eq, Hash, PartialOrd, Ord, Structural)]
pub enum PresentationKind {
    Terminal,
    Graphical,
}

/// A request to open a new game proposal of the given type.
#[derive(Debug, Clone)]
pub struct CreateGameProposal {
    pub game_type: String,
}

/// A command line addressed to a terminal session.
#[derive(Debug, Clone)]
pub enum TerminalSessionCommand {
    Line(String),
}

/// A command addressed to whatever session a connection is in.
#[derive(Debug, Clone)]
pub enum SessionCommand {
    Terminal(TerminalSessionCommand),
}

/// What kind of seat a session is: at a proposal, or at a game as a
/// numbered player.
#[derive(Debug, Clone, Copy, PartialEq, Eq, Structural)]
pub enum SessionKind {
    GameProposal(GameProposalId),
    Game(GameId),
}

/// A session the user has entered, as the presentation sees it.
#[derive(Debug, Clone, Copy, PartialEq, Eq, Structural)]
pub struct SessionInfo {
    pub id: SessionId,
    pub kind: SessionKind,
}

/// A line of terminal output from a session.
#[derive(Debug, Clone)]
pub enum TerminalSessionEvent {
    Line(String),
}

/// An event a session shows its members.
#[derive(Debug, Clone)]
pub enum SessionEvent {
    Terminal(TerminalSessionEvent),
}

/// What a presentation asks its connection actor to do.
#[derive(Debug, Clone)]
pub enum PresentationToConnectionMsg {
    ListGames,
    ListProposals,
    ListSessions,
    ListMessages,
    Propose(CreateGameProposal),
    Withdraw(GameProposalId),
    Enter(SessionId),
    Exit,
    SessionCommand(SessionCommand),
}

/// A user, minimally, for display.
#[derive(Debug, Clone)]
pub struct UserMin {
    pub id: UserId,
    pub username: String,
}

/// An unread message, minimally, for display.
#[derive(Debug, Clone)]
pub struct MessageMin {
    pub id: MessageId,
    pub sent_at: i64,
    pub subject: String,
    pub from: Option<UserMin>,
    pub request_id: Option<RequestId>,
}

/// A visible game proposal, minimally, for display.
#[derive(Debug, Clone)]
pub struct GameProposalMin {
    pub id: GameProposalId,
    pub created_at: i64,
    pub game_type: String,
}

/// One of the user's sessions, minimally, for display.
#[derive(Debug, Clone)]
pub struct SessionMin {
    pub id: SessionId,
    pub created_at: i64,
    pub kind: SessionKind,
}

/// What a connection actor tells its presentation.
#[derive(Debug, Clone)]
pub enum ConnectionToPresentationMsg {
    MessageList(Vec<MessageMin>),
    ProposalList(Vec<GameProposalMin>),
    SessionList(Vec<SessionMin>),
    EnteredSession(SessionInfo),
    ExitedSession,
    SessionEvent(SessionEvent),
    Error(String),
}

/// Why the user directory refused an operation.
#[derive(Debug, Clone)]
pub enum UserManagementError {
    UserDoesNotExist,
    InvalidAuth,
    UserAlreadyExists,
    Other(String),
}

/// What a presentation writes to its terminal endpoint.
#[derive(Debug, Clone)]
pub enum PresentationToTerminalMsg {
    PrintLine(String),
    ErrorLine(String),
}

/// What a terminal endpoint hands its presentation.
#[derive(Debug, Clone)]
pub enum TerminalToPresentationMsg {
    ReadLine(String),
}

} // verus!
