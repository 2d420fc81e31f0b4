//! The presentation adapter's decisions.
//!
//! The adapter bridges a terminal endpoint and a connection actor. A line
//! beginning with the reserved prefix (`/` or `.`) is a command; otherwise
//! it is a session command while a session is active, and a command when
//! none is. Commands are interpreted by the grammar and become typed
//! requests to the connection actor; lists coming back are rendered one
//! line per row.

use vstd::prelude::*;
use vstd::string::StrSliceExecFns;
use vstd::string::StringExecFns;
use crate::ids::{dec_digits, id_repr, int_repr, render_int, render_uint, spec_parse_id, SessionId};
use crate::presentation::{CreateGameProposal, GameProposalMin, MessageMin,
    PresentationToConnectionMsg, SessionKind, SessionMin};
use crate::text::str_eq;
use crate::ui::CommandInterpretation;

verus! {

/// How one read line is to be treated.
#[derive(Debug)]
pub enum LineMode {
    /// Interpret this as a command.
    Command(String),
    /// Forward this into the active session.
    Session(String),
}

/// Whether `c` is the reserved prefix that forces command mode.
pub open spec fn is_command_prefix(c: char) -> bool {
    c == '/' || c == '.'
}

/// Sorts a read line: the reserved prefix forces command mode and is
/// stripped; otherwise the whole line is a session command while a session
/// is active, and a command when none is.
pub fn read_line_mode(line: &str, has_active_session: bool) -> (r: LineMode)
    ensures
        ({
            if line@.len() > 0 && is_command_prefix(line@[0]) {
                r matches LineMode::Command(c) && c@ == line@.subrange(1, line@.len() as int)
            } else if has_active_session {
                r matches LineMode::Session(c) && c@ == line@
            } else {
                r matches LineMode::Command(c) && c@ == line@
            }
        }),
{
    let len = line.unicode_len();
    if len > 0 {
        let c0 = line.get_char(0);
        if c0 == '/' || c0 == '.' {
            return LineMode::Command(line.substring_char(1, len).to_owned());
        }
    }
    if has_active_session {
        LineMode::Session(line.to_owned())
    } else {
        LineMode::Command(line.to_owned())
    }
}

/// What an interpreted command line leads to.
#[derive(Debug)]
pub enum CommandOutcome {
    /// Send this request to the connection actor.
    Send(PresentationToConnectionMsg),
    /// Print this to the terminal.
    Print(String),
    /// Show this error line to the terminal.
    Reject(String),
    /// Nothing.
    Nothing,
}

/// The complaint for a wrong argument count.
pub open spec fn arg_count_error(expected: int, got: int) -> Seq<char> {
    "Expected "@ + dec_digits(expected as nat) + " arguments, received "@ + dec_digits(
        got as nat,
    ) + "!\n"@
}

/// Builds the complaint for a wrong argument count.
fn render_arg_count_error(expected: u64, got: usize) -> (r: String)
    ensures
        r@ == arg_count_error(expected as int, got as int),
{
    let mut s = String::from_str("Expected ");
    let e = render_uint(expected);
    s.append(e.as_str());
    s.append(" arguments, received ");
    let g = render_uint(got as u64);
    s.append(g.as_str());
    s.append("!\n");
    proof {
        assert(s@ =~= arg_count_error(expected as int, got as int));
    }
    s
}

/// Turns one interpreted command into the request it stands for: `propose`
/// with its game type, the three list commands, `enter` with a parsed
/// session id, and `exit`; responses are printed, anything else is
/// rejected. Wrong argument counts and a bad session id are rejected with
/// the exact complaint.
pub fn command_to_intent(ci: CommandInterpretation) -> (r: CommandOutcome)
    ensures
        match ci {
            CommandInterpretation::Noop => r is Nothing,
            CommandInterpretation::Response { prompt } => r matches CommandOutcome::Print(t) && t
                == prompt,
            CommandInterpretation::Action { command, args } => {
                if command@ == "propose"@ {
                    if args@.len() == 1 {
                        r matches CommandOutcome::Send(PresentationToConnectionMsg::Propose(p))
                            && p.game_type == args@[0]
                    } else {
                        r matches CommandOutcome::Reject(t) && t@ == arg_count_error(
                            1,
                            args@.len() as int,
                        )
                    }
                } else if command@ == "proposals"@ {
                    if args@.len() == 0 {
                        r == (CommandOutcome::Send(PresentationToConnectionMsg::ListProposals))
                    } else {
                        r matches CommandOutcome::Reject(t) && t@ == arg_count_error(
                            0,
                            args@.len() as int,
                        )
                    }
                } else if command@ == "sessions"@ {
                    if args@.len() == 0 {
                        r == (CommandOutcome::Send(PresentationToConnectionMsg::ListSessions))
                    } else {
                        r matches CommandOutcome::Reject(t) && t@ == arg_count_error(
                            0,
                            args@.len() as int,
                        )
                    }
                } else if command@ == "messages"@ {
                    if args@.len() == 0 {
                        r == (CommandOutcome::Send(PresentationToConnectionMsg::ListMessages))
                    } else {
                        r matches CommandOutcome::Reject(t) && t@ == arg_count_error(
                            0,
                            args@.len() as int,
                        )
                    }
                } else if command@ == "enter"@ {
                    if args@.len() != 1 {
                        r matches CommandOutcome::Reject(t) && t@ == arg_count_error(
                            1,
                            args@.len() as int,
                        )
                    } else {
                        match spec_parse_id('s', args@[0]@) {
                            Some(v) => r == (CommandOutcome::Send(
                                PresentationToConnectionMsg::Enter(SessionId(v as i64)),
                            )),
                            None => r matches CommandOutcome::Reject(t) && t@ == "Invalid ID\n"@,
                        }
                    }
                } else if command@ == "exit"@ {
                    if args@.len() == 0 {
                        r == (CommandOutcome::Send(PresentationToConnectionMsg::Exit))
                    } else {
                        r matches CommandOutcome::Reject(t) && t@ == arg_count_error(
                            0,
                            args@.len() as int,
                        )
                    }
                } else {
                    r matches CommandOutcome::Reject(t) && t@ == "Not implemented\n"@
                }
            },
        },
{
    match ci {
        CommandInterpretation::Noop => CommandOutcome::Nothing,
        CommandInterpretation::Response { prompt } => CommandOutcome::Print(prompt),
        CommandInterpretation::Action { command, args } => {
            let mut args = args;
            if str_eq(command.as_str(), "propose") {
                if args.len() == 1 {
                    let game_type = args.remove(0);
                    CommandOutcome::Send(
                        PresentationToConnectionMsg::Propose(CreateGameProposal { game_type }),
                    )
                } else {
                    CommandOutcome::Reject(render_arg_count_error(1, args.len()))
                }
            } else if str_eq(command.as_str(), "proposals") {
                if args.len() == 0 {
                    CommandOutcome::Send(PresentationToConnectionMsg::ListProposals)
                } else {
                    CommandOutcome::Reject(render_arg_count_error(0, args.len()))
                }
            } else if str_eq(command.as_str(), "sessions") {
                if args.len() == 0 {
                    CommandOutcome::Send(PresentationToConnectionMsg::ListSessions)
                } else {
                    CommandOutcome::Reject(render_arg_count_error(0, args.len()))
                }
            } else if str_eq(command.as_str(), "messages") {
                if args.len() == 0 {
                    CommandOutcome::Send(PresentationToConnectionMsg::ListMessages)
                } else {
                    CommandOutcome::Reject(render_arg_count_error(0, args.len()))
                }
            } else if str_eq(command.as_str(), "enter") {
                if args.len() != 1 {
                    CommandOutcome::Reject(render_arg_count_error(1, args.len()))
                } else {
                    match SessionId::parse(args[0].as_str()) {
                        Ok(id) => CommandOutcome::Send(PresentationToConnectionMsg::Enter(id)),
                        Err(_) => CommandOutcome::Reject(String::from_str("Invalid ID\n")),
                    }
                }
            } else if str_eq(command.as_str(), "exit") {
                if args.len() == 0 {
                    CommandOutcome::Send(PresentationToConnectionMsg::Exit)
                } else {
                    CommandOutcome::Reject(render_arg_count_error(0, args.len()))
                }
            } else {
                CommandOutcome::Reject(String::from_str("Not implemented\n"))
            }
        },
    }
}

/// One proposal as a listing line: id, game type, creation time.
pub open spec fn proposal_line(p: GameProposalMin) -> Seq<char> {
    id_repr('p', p.id.0 as int) + " "@ + p.game_type@ + " "@ + int_repr(p.created_at as int)
        + "\n"@
}

/// Renders one proposal listing line.
pub fn render_proposal_line(p: &GameProposalMin) -> (r: String)
    ensures
        r@ == proposal_line(*p),
{
    let mut s = p.id.format();
    s.append(" ");
    s.append(p.game_type.as_str());
    s.append(" ");
    let t = render_int(p.created_at);
    s.append(t.as_str());
    s.append("\n");
    proof {
        assert(s@ =~= proposal_line(*p));
    }
    s
}

/// One session as a listing line: id, what it seats the user at, creation
/// time.
pub open spec fn session_line(m: SessionMin) -> Seq<char> {
    id_repr('s', m.id.0 as int) + " "@ + (match m.kind {
        SessionKind::GameProposal(p) => "proposal "@ + id_repr('p', p.0 as int),
        SessionKind::Game(g) => "game "@ + id_repr('g', g.0 as int),
    }) + " "@ + int_repr(m.created_at as int) + "\n"@
}

/// Renders one session listing line.
pub fn render_session_line(m: &SessionMin) -> (r: String)
    ensures
        r@ == session_line(*m),
{
    let mut s = m.id.format();
    s.append(" ");
    match m.kind {
        SessionKind::GameProposal(p) => {
            s.append("proposal ");
            let t = p.format();
            s.append(t.as_str());
        },
        SessionKind::Game(g) => {
            s.append("game ");
            let t = g.format();
            s.append(t.as_str());
        },
    }
    s.append(" ");
    let t = render_int(m.created_at);
    s.append(t.as_str());
    s.append("\n");
    proof {
        assert(s@ =~= session_line(*m));
    }
    s
}

/// One message as a listing line: id, sent time, sender (or `System`),
/// subject.
pub open spec fn message_line(m: MessageMin) -> Seq<char> {
    id_repr('m', m.id.0 as int) + " "@ + int_repr(m.sent_at as int) + " "@ + (match m.from {
        Some(u) => u.username@,
        None => "System"@,
    }) + " "@ + m.subject@ + "\n"@
}

/// Renders one message listing line.
pub fn render_message_line(m: &MessageMin) -> (r: String)
    ensures
        r@ == message_line(*m),
{
    let mut s = m.id.format();
    s.append(" ");
    let t = render_int(m.sent_at);
    s.append(t.as_str());
    s.append(" ");
    match &m.from {
        Some(u) => {
            s.append(u.username.as_str());
        },
        None => {
            s.append("System");
        },
    }
    s.append(" ");
    s.append(m.subject.as_str());
    s.append("\n");
    proof {
        assert(s@ =~= message_line(*m));
    }
    s
}

/// The prompt bookkeeping of a terminal session: whether the endpoint is
/// expected to produce a line, and whether it has already been asked for
/// one. A line is requested exactly once per line expected; with no active
/// session a line is always expected.
#[derive(Debug, Clone, Copy, PartialEq, Eq, Structural)]
pub struct PromptState {
    pub requested_line: bool,
    pub expecting_line: bool,
}

impl PromptState {
    /// The state before anything happened.
    pub fn new() -> (r: PromptState)
        ensures
            !r.requested_line,
            !r.expecting_line,
    {
        PromptState { requested_line: false, expecting_line: false }
    }

    /// Run before each wait: with no active session a line is expected,
    /// and an expected line not yet asked for is requested now — the
    /// result says whether to send the request.
    pub fn before_wait(&mut self, has_active_session: bool) -> (request_now: bool)
        ensures
            final(self).expecting_line == (old(self).expecting_line || !has_active_session),
            request_now == (final(self).expecting_line && !old(self).requested_line),
            final(self).requested_line == (old(self).requested_line || request_now),
    {
        if !has_active_session {
            self.expecting_line = true;
        }
        if self.expecting_line && !self.requested_line {
            self.requested_line = true;
            true
        } else {
            false
        }
    }

    /// A line arrived: both flags reset until the next wait.
    pub fn line_received(&mut self)
        ensures
            !final(self).requested_line,
            !final(self).expecting_line,
    {
        self.requested_line = false;
        self.expecting_line = false;
    }

    /// The session asked the terminal for a line itself: nothing further
    /// to request.
    pub fn session_requested_line(&mut self)
        ensures
            final(self).requested_line,
            final(self).expecting_line == old(self).expecting_line,
    {
        self.requested_line = true;
    }
}

} // verus!
