//! The connection actor's decisions.
//!
//! One connection actor runs per presentation connection of an
//! authenticated user. It routes between the terminal, at most one active
//! session, persistence and system notifications. The channel plumbing and
//! the persistence calls happen outside; every decision — what to query,
//! what to forward, what to answer, when the routing state changes — is
//! made here.

use vstd::prelude::*;
use crate::ids::{GameId, GameProposalId, SessionId, UserId};
use crate::presentation::{ConnectionToPresentationMsg, PresentationKind,
    PresentationToConnectionMsg, SessionCommand, SessionEvent, SessionInfo,
    TerminalSessionEvent};
use crate::records::{Session, SessionType, session_wf};

verus! {

/// A system notification to one user's connections.
#[derive(Debug, Clone, Copy, PartialEq, Eq, Structural)]
pub enum SystemToConnectionMsg {
    NewMessage,
}

/// What a connection sends into its session.
#[derive(Debug, Clone)]
pub enum ConnectionToSessionMsg {
    Command(SessionCommand),
}

/// A member of a session, as its events name one.
#[derive(Debug, Clone, Copy, PartialEq, Eq, Structural)]
pub struct SessionMember {
    pub user_id: UserId,
    pub player_index: Option<i64>,
}

/// What a session tells a member's connection.
#[derive(Debug, Clone)]
pub enum SessionToConnectionMsg {
    UserEntered(SessionMember),
    UserExited(SessionMember),
    Event(SessionEvent),
}

/// How a handled message failed: with a line for the user, or fatally.
#[derive(Debug, Clone)]
pub enum ConnectionError {
    Present(String),
    Internal(String),
}

/// What the actor asks its runtime to do next.
#[derive(Debug, Clone)]
pub enum ConnectionStep {
    /// Nothing to do.
    Idle,
    /// Send this to the presentation.
    ToPresentation(ConnectionToPresentationMsg),
    /// Forward this into the active session.
    ToSession(ConnectionToSessionMsg),
    /// Read the user's visible proposals and answer with the list.
    QueryProposals,
    /// Read the user's sessions and answer with the list.
    QuerySessions,
    /// Read the user's unread messages and answer with the list.
    QueryMessages,
    /// Create a proposal of this game type inside a transaction.
    CreateProposal(String),
    /// Look this session row up for the user, then continue with
    /// `enter_resolved`.
    ResolveSession(SessionId),
    /// Ask the proposal manager for a room channel, then continue with
    /// `entered`.
    JoinProposal(GameProposalId),
    /// Ask the game manager for a seat channel, then continue with
    /// `entered`.
    JoinGame { game_id: GameId, player_index: i32 },
}

/// The routing state of one connection actor.
#[derive(Debug, Clone, Copy, PartialEq, Eq, Structural)]
pub struct ConnectionState {
    pub user_id: UserId,
    pub kind: PresentationKind,
    pub active_session: Option<SessionInfo>,
}

impl ConnectionState {
    /// The state a fresh connection starts in: no active session.
    pub fn new(user_id: UserId, kind: PresentationKind) -> (r: ConnectionState)
        ensures
            r.user_id == user_id,
            r.kind == kind,
            r.active_session is None,
    {
        ConnectionState { user_id, kind, active_session: None }
    }

    /// Decides on one presentation request. List requests become queries;
    /// `Propose` becomes a transaction; `Enter` resolves the session row;
    /// `Exit` clears the active session or complains; a session command is
    /// forwarded when a session is active and dropped when none is; the
    /// unimplemented requests are rejected with a line.
    pub fn handle_presentation_msg(&mut self, msg: PresentationToConnectionMsg) -> (r: Result<
        ConnectionStep,
        ConnectionError,
    >)
        ensures
            final(self).user_id == old(self).user_id,
            final(self).kind == old(self).kind,
            match msg {
                PresentationToConnectionMsg::ListGames => *final(self) == *old(self) && (
                r matches Err(ConnectionError::Present(t)) && t@ == "Not implemented\n"@),
                PresentationToConnectionMsg::ListProposals => *final(self) == *old(self) && r
                    == Ok::<_, ConnectionError>(ConnectionStep::QueryProposals),
                PresentationToConnectionMsg::ListSessions => *final(self) == *old(self) && r == Ok::<
                    _,
                    ConnectionError,
                >(ConnectionStep::QuerySessions),
                PresentationToConnectionMsg::ListMessages => *final(self) == *old(self) && r == Ok::<
                    _,
                    ConnectionError,
                >(ConnectionStep::QueryMessages),
                PresentationToConnectionMsg::Propose(p) => *final(self) == *old(self) && (
                r matches Ok(ConnectionStep::CreateProposal(t)) && t == p.game_type),
                PresentationToConnectionMsg::Withdraw(_) => *final(self) == *old(self) && (
                r matches Err(ConnectionError::Present(t)) && t@ == "Not implemented\n"@),
                PresentationToConnectionMsg::Enter(sid) => *final(self) == *old(self) && r == Ok::<
                    _,
                    ConnectionError,
                >(ConnectionStep::ResolveSession(sid)),
                PresentationToConnectionMsg::Exit => match old(self).active_session {
                    Some(_) => final(self).active_session is None && r == Ok::<
                        _,
                        ConnectionError,
                    >(
                        ConnectionStep::ToPresentation(
                            ConnectionToPresentationMsg::ExitedSession,
                        ),
                    ),
                    None => *final(self) == *old(self) && (
                    r matches Err(ConnectionError::Present(t)) && t@ == "No active session"@),
                },
                PresentationToConnectionMsg::SessionCommand(cmd) => *final(self) == *old(self)
                    && match old(self).active_session {
                    Some(_) => r matches Ok(ConnectionStep::ToSession(
                        ConnectionToSessionMsg::Command(c),
                    )) && c == cmd,
                    None => r == Ok::<_, ConnectionError>(ConnectionStep::Idle),
                },
            },
    {
        match msg {
            PresentationToConnectionMsg::ListGames => Err(
                ConnectionError::Present(String::from_str("Not implemented\n")),
            ),
            PresentationToConnectionMsg::ListProposals => Ok(ConnectionStep::QueryProposals),
            PresentationToConnectionMsg::ListSessions => Ok(ConnectionStep::QuerySessions),
            PresentationToConnectionMsg::ListMessages => Ok(ConnectionStep::QueryMessages),
            PresentationToConnectionMsg::Propose(p) => Ok(
                ConnectionStep::CreateProposal(p.game_type),
            ),
            PresentationToConnectionMsg::Withdraw(_) => Err(
                ConnectionError::Present(String::from_str("Not implemented\n")),
            ),
            PresentationToConnectionMsg::Enter(sid) => Ok(ConnectionStep::ResolveSession(sid)),
            PresentationToConnectionMsg::Exit => {
                if self.active_session.is_some() {
                    self.active_session = None;
                    Ok(
                        ConnectionStep::ToPresentation(
                            ConnectionToPresentationMsg::ExitedSession,
                        ),
                    )
                } else {
                    Err(ConnectionError::Present(String::from_str("No active session")))
                }
            },
            PresentationToConnectionMsg::SessionCommand(cmd) => {
                if self.active_session.is_some() {
                    Ok(ConnectionStep::ToSession(ConnectionToSessionMsg::Command(cmd)))
                } else {
                    Ok(ConnectionStep::Idle)
                }
            },
        }
    }

    /// Continues an `Enter` once persistence has answered: no row, or a
    /// row of another user, earns an "Invalid session ID" line; a game row
    /// joins the game as its player index, a proposal row joins the room.
    /// A row missing the foreign id its type demands is an internal error.
    pub fn enter_resolved(&self, row: Option<Session>) -> (r: Result<
        ConnectionStep,
        ConnectionError,
    >)
        ensures
            match row {
                None => r matches Err(ConnectionError::Present(t)) && t@
                    == "Invalid session ID\n"@,
                Some(s) => {
                    if s.user_id != self.user_id {
                        r matches Err(ConnectionError::Present(t)) && t@
                            == "Invalid session ID\n"@
                    } else if !session_wf(s) {
                        r is Err && !(r matches Err(ConnectionError::Present(_)))
                    } else {
                        match s.type_ {
                            SessionType::Game => r == Ok::<_, ConnectionError>(
                                ConnectionStep::JoinGame {
                                    game_id: s.game_id->Some_0,
                                    player_index: s.game_player_index->Some_0,
                                },
                            ),
                            SessionType::GameProposal => r == Ok::<_, ConnectionError>(
                                ConnectionStep::JoinProposal(s.game_proposal_id->Some_0),
                            ),
                        }
                    }
                },
            },
    {
        match row {
            None => Err(ConnectionError::Present(String::from_str("Invalid session ID\n"))),
            Some(s) => {
                if s.user_id.0 != self.user_id.0 {
                    return Err(
                        ConnectionError::Present(String::from_str("Invalid session ID\n")),
                    );
                }
                match s.type_ {
                    SessionType::Game => {
                        match (s.game_id, s.game_player_index) {
                            (Some(game_id), Some(player_index)) => Ok(
                                ConnectionStep::JoinGame { game_id, player_index },
                            ),
                            _ => Err(
                                ConnectionError::Internal(
                                    String::from_str("session row missing its game"),
                                ),
                            ),
                        }
                    },
                    SessionType::GameProposal => {
                        match s.game_proposal_id {
                            Some(p) => Ok(ConnectionStep::JoinProposal(p)),
                            None => Err(
                                ConnectionError::Internal(
                                    String::from_str("session row missing its proposal"),
                                ),
                            ),
                        }
                    },
                }
            },
        }
    }

    /// Records the session just joined and announces it to the
    /// presentation.
    pub fn entered(&mut self, info: SessionInfo) -> (r: ConnectionStep)
        ensures
            final(self).user_id == old(self).user_id,
            final(self).kind == old(self).kind,
            final(self).active_session == Some(info),
            r == (ConnectionStep::ToPresentation(
                ConnectionToPresentationMsg::EnteredSession(info),
            )),
    {
        self.active_session = Some(info);
        ConnectionStep::ToPresentation(ConnectionToPresentationMsg::EnteredSession(info))
    }

    /// The active session's channel closed: the seat is gone, like an
    /// explicit exit.
    pub fn session_closed(&mut self) -> (r: Result<ConnectionStep, ConnectionError>)
        ensures
            final(self).user_id == old(self).user_id,
            final(self).kind == old(self).kind,
            final(self).active_session is None,
            match old(self).active_session {
                Some(_) => r == Ok::<_, ConnectionError>(
                    ConnectionStep::ToPresentation(ConnectionToPresentationMsg::ExitedSession),
                ),
                None => r matches Err(ConnectionError::Present(t)) && t@
                    == "No active session"@,
            },
    {
        self.handle_presentation_msg(PresentationToConnectionMsg::Exit)
    }

    /// Translates a session's message for the presentation: membership
    /// changes become terminal lines, events pass through.
    pub fn handle_session_msg(&self, msg: SessionToConnectionMsg) -> (r:
        ConnectionToPresentationMsg)
        ensures
            match msg {
                SessionToConnectionMsg::UserEntered(_) => r matches
                    ConnectionToPresentationMsg::SessionEvent(SessionEvent::Terminal(
                    TerminalSessionEvent::Line(l),
                )) && l@ == "User entered"@,
                SessionToConnectionMsg::UserExited(_) => r matches
                    ConnectionToPresentationMsg::SessionEvent(SessionEvent::Terminal(
                    TerminalSessionEvent::Line(l),
                )) && l@ == "User exited"@,
                SessionToConnectionMsg::Event(ev) => r matches
                    ConnectionToPresentationMsg::SessionEvent(e) && e == ev,
            },
    {
        match msg {
            SessionToConnectionMsg::UserEntered(_) => ConnectionToPresentationMsg::SessionEvent(
                SessionEvent::Terminal(
                    TerminalSessionEvent::Line(String::from_str("User entered")),
                ),
            ),
            SessionToConnectionMsg::UserExited(_) => ConnectionToPresentationMsg::SessionEvent(
                SessionEvent::Terminal(
                    TerminalSessionEvent::Line(String::from_str("User exited")),
                ),
            ),
            SessionToConnectionMsg::Event(ev) => ConnectionToPresentationMsg::SessionEvent(ev),
        }
    }
}

} // verus!
