use playferrous::ids::{GameProposalId, MessageId, SessionId, UserId};
use playferrous::presentation::{
    GameProposalMin, MessageMin, PresentationToConnectionMsg, SessionKind, SessionMin, UserMin,
};
use playferrous::records::{MessageMinRecord, SessionMinRecord, SessionType};
use playferrous::terminal::{
    command_to_intent, read_line_mode, render_message_line, render_proposal_line,
    render_session_line, CommandOutcome, LineMode, PromptState,
};
use playferrous::ui::Ui;

fn interpret(line: &str) -> CommandOutcome {
    command_to_intent(Ui::instance().interpret_command(line))
}

#[test]
fn slash_and_dot_force_command_mode() {
    match read_line_mode("/help", true) {
        LineMode::Command(c) => assert_eq!(c, "help"),
        _ => panic!("expected command mode"),
    }
    match read_line_mode(".help", true) {
        LineMode::Command(c) => assert_eq!(c, "help"),
        _ => panic!("expected command mode"),
    }
}

#[test]
fn session_mode_only_while_a_session_is_active() {
    match read_line_mode("rock", true) {
        LineMode::Session(c) => assert_eq!(c, "rock"),
        _ => panic!("expected session mode"),
    }
    match read_line_mode("rock", false) {
        LineMode::Command(c) => assert_eq!(c, "rock"),
        _ => panic!("expected command mode"),
    }
}

#[test]
fn unknown_command_echo_through_the_adapter() {
    match interpret("foo") {
        CommandOutcome::Print(t) => {
            assert_eq!(t, "Unrecognised command. Use `help` for more information.\n");
        }
        _ => panic!("expected the unrecognised-command response"),
    }
}

#[test]
fn propose_becomes_a_request() {
    match interpret("propose rock-paper-scissors") {
        CommandOutcome::Send(PresentationToConnectionMsg::Propose(p)) => {
            assert_eq!(p.game_type, "rock-paper-scissors");
        }
        _ => panic!("expected a propose request"),
    }
}

#[test]
fn list_commands_become_requests() {
    assert!(matches!(
        interpret("proposals"),
        CommandOutcome::Send(PresentationToConnectionMsg::ListProposals)
    ));
    assert!(matches!(
        interpret("sessions"),
        CommandOutcome::Send(PresentationToConnectionMsg::ListSessions)
    ));
    assert!(matches!(
        interpret("messages"),
        CommandOutcome::Send(PresentationToConnectionMsg::ListMessages)
    ));
    assert!(matches!(
        interpret("exit"),
        CommandOutcome::Send(PresentationToConnectionMsg::Exit)
    ));
}

#[test]
fn enter_parses_the_session_id() {
    match interpret("enter s5") {
        CommandOutcome::Send(PresentationToConnectionMsg::Enter(id)) => {
            assert_eq!(id, SessionId(5));
        }
        _ => panic!("expected an enter request"),
    }
    match interpret("enter five") {
        CommandOutcome::Reject(t) => assert_eq!(t, "Invalid ID\n"),
        _ => panic!("expected a rejection"),
    }
}

#[test]
fn wrong_argument_counts_are_rejected_exactly() {
    match interpret("propose a b") {
        CommandOutcome::Reject(t) => assert_eq!(t, "Expected 1 arguments, received 2!\n"),
        _ => panic!("expected a rejection"),
    }
    match interpret("propose") {
        CommandOutcome::Reject(t) => assert_eq!(t, "Expected 1 arguments, received 0!\n"),
        _ => panic!("expected a rejection"),
    }
    match interpret("exit now") {
        CommandOutcome::Reject(t) => assert_eq!(t, "Expected 0 arguments, received 1!\n"),
        _ => panic!("expected a rejection"),
    }
}

#[test]
fn propose_then_list_shows_the_one_proposal() {
    // "propose rock-paper-scissors" succeeds; listing the proposals then
    // shows exactly one entry of that game type.
    let game_type = match interpret("propose rock-paper-scissors") {
        CommandOutcome::Send(PresentationToConnectionMsg::Propose(p)) => p.game_type,
        _ => panic!("expected a propose request"),
    };
    let row = playferrous::records::GameProposal::create_default(GameProposalId(1), game_type, 0);
    let listing = vec![GameProposalMin {
        id: row.id,
        created_at: row.created_at,
        game_type: row.game_type.clone(),
    }];
    assert_eq!(listing.len(), 1);
    assert_eq!(listing[0].game_type, "rock-paper-scissors");
    assert!(matches!(
        interpret("proposals"),
        CommandOutcome::Send(PresentationToConnectionMsg::ListProposals)
    ));
}

#[test]
fn proposal_listing_line() {
    let p = GameProposalMin {
        id: GameProposalId(3),
        created_at: 1700000000,
        game_type: "rock-paper-scissors".to_string(),
    };
    assert_eq!(render_proposal_line(&p), "p3 rock-paper-scissors 1700000000\n");
}

#[test]
fn session_listing_lines() {
    let s = SessionMinRecord {
        id: SessionId(8),
        type_: SessionType::GameProposal,
        created_at: 5,
        game_id: None,
        game_proposal_id: Some(GameProposalId(3)),
    }
    .reify();
    assert_eq!(render_session_line(&s), "s8 proposal p3 5\n");
    let g = SessionMin {
        id: SessionId(9),
        created_at: -2,
        kind: SessionKind::Game(playferrous::ids::GameId(4)),
    };
    assert_eq!(render_session_line(&g), "s9 game g4 -2\n");
}

#[test]
fn message_listing_lines() {
    let users = vec![UserMin { id: UserId(2), username: "ada".to_string() }];
    let m = MessageMinRecord {
        id: MessageId(1),
        sent_at: 10,
        subject: "hello".to_string(),
        from_id: Some(UserId(2)),
        request_id: None,
    }
    .reify(&users);
    assert_eq!(render_message_line(&m), "m1 10 ada hello\n");
    let system = MessageMin {
        id: MessageId(2),
        sent_at: 11,
        subject: "welcome".to_string(),
        from: None,
        request_id: None,
    };
    assert_eq!(render_message_line(&system), "m2 11 System welcome\n");
}

#[test]
fn a_line_is_requested_exactly_once_per_expected_line() {
    let mut p = PromptState::new();
    assert!(p.before_wait(false));
    assert!(!p.before_wait(false));
    p.line_received();
    assert!(p.before_wait(false));
    p.line_received();
    // Inside a session the session drives the prompt.
    assert!(!p.before_wait(true));
    p.session_requested_line();
    assert!(!p.before_wait(false));
}
