use playferrous::connection::{
    ConnectionError, ConnectionState, ConnectionStep, ConnectionToSessionMsg, SessionMember,
    SessionToConnectionMsg,
};
use playferrous::game::{GameResult, GameState, PlayerResult};
use playferrous::game_session::{GameSessionAction, GameSessionPhase, GameSessionState};
use playferrous::ids::{GameId, GameProposalId, SessionId, UserId};
use playferrous::presentation::{
    ConnectionToPresentationMsg, PresentationKind, PresentationToConnectionMsg, SessionCommand,
    SessionEvent, TerminalSessionCommand, TerminalSessionEvent,
};
use playferrous::proposal::ProposalSessionState;
use playferrous::records::{Session, SessionType};
use playferrous::registry::{ConnectionRegistry, SessionRegistry};
use playferrous::tick::GameTick;
use playferrous::transaction::TransactionEnvelope;

#[test]
fn open_spawns_one_actor_and_gc_reaps_the_bucket() {
    // Every `open` call registers exactly one new connection; a `gc` after
    // the last one closes removes the user's bucket.
    let mut reg = ConnectionRegistry::new();
    let h0 = reg.open(7);
    let h1 = reg.open(7);
    assert_ne!(h0, h1);
    let other = reg.open(8);
    assert_eq!(reg.recipients(7), vec![h0, h1]);

    reg.gc(7, &vec![h0]);
    assert_eq!(reg.recipients(7), vec![h1]);
    reg.gc(7, &vec![h1]);
    assert_eq!(reg.recipients(7), Vec::<u64>::new());
    assert_eq!(reg.buckets.iter().filter(|b| b.user == 7).count(), 0);
    assert_eq!(reg.recipients(8), vec![other]);
}

#[test]
fn concurrent_enters_rendezvous_on_one_actor() {
    // N racing `enter` calls for one session id create a single actor and
    // each call lands its Enter message on that same actor.
    let mut reg = SessionRegistry::new();
    let (a1, created1) = reg.enter(5);
    let (a2, created2) = reg.enter(5);
    let (a3, created3) = reg.enter(5);
    assert!(created1);
    assert!(!created2);
    assert!(!created3);
    assert_eq!(a1, a2);
    assert_eq!(a2, a3);

    let (b1, created_b) = reg.enter(6);
    assert!(created_b);
    assert_ne!(a1, b1);

    reg.remove(5);
    let (a4, created4) = reg.enter(5);
    assert!(created4);
    assert_ne!(a4, a1);
}

#[test]
fn hooks_fire_iff_commit_succeeds() {
    let mut tx: TransactionEnvelope<i32> = TransactionEnvelope::begin();
    tx.on_commit(1);
    tx.on_commit(2);
    assert_eq!(tx.commit(true), vec![1, 2]);

    let mut tx2: TransactionEnvelope<i32> = TransactionEnvelope::begin();
    tx2.on_commit(3);
    assert_eq!(tx2.commit(false), Vec::<i32>::new());

    let mut tx3: TransactionEnvelope<i32> = TransactionEnvelope::begin();
    tx3.on_commit(4);
    assert_eq!(tx3.rollback(), Vec::<i32>::new());
}

#[test]
fn proposal_enter_broadcasts_to_prior_members() {
    let mut room = ProposalSessionState::new(GameProposalId(9));
    assert!(room.is_idle());
    let (msg_a, recips_a) = room.handle_enter(UserId(1), PresentationKind::Terminal);
    assert!(matches!(
        msg_a,
        SessionToConnectionMsg::UserEntered(SessionMember { user_id: UserId(1), player_index: None })
    ));
    assert_eq!(recips_a, Vec::<UserId>::new());
    let (_, recips_b) = room.handle_enter(UserId(2), PresentationKind::Terminal);
    assert_eq!(recips_b, vec![UserId(1)]);
    assert!(!room.is_idle());
}

#[test]
fn proposal_lines_echo_to_everyone() {
    let mut room = ProposalSessionState::new(GameProposalId(9));
    room.handle_enter(UserId(1), PresentationKind::Terminal);
    room.handle_enter(UserId(2), PresentationKind::Terminal);
    let (msg, recips) = room.handle_line(UserId(1), "hello");
    match msg {
        SessionToConnectionMsg::Event(SessionEvent::Terminal(TerminalSessionEvent::Line(l))) => {
            assert_eq!(l, "u1: hello");
        }
        _ => panic!("expected an echoed line"),
    }
    assert_eq!(recips, vec![UserId(1), UserId(2)]);
}

#[test]
fn slow_recipient_eviction() {
    // B's inbound queue stays full past its send window: B is evicted with
    // UserExited while A is untouched.
    let mut room = ProposalSessionState::new(GameProposalId(9));
    room.handle_enter(UserId(1), PresentationKind::Terminal);
    room.handle_enter(UserId(2), PresentationKind::Terminal);
    let (msg, recips) = room.timeout_user(UserId(2));
    assert!(matches!(
        msg,
        SessionToConnectionMsg::UserExited(SessionMember { user_id: UserId(2), player_index: None })
    ));
    assert_eq!(recips, vec![UserId(1)]);
    assert_eq!(room.recipients(), vec![UserId(1)]);
}

#[test]
fn disconnect_removes_and_announces() {
    let mut room = ProposalSessionState::new(GameProposalId(9));
    room.handle_enter(UserId(1), PresentationKind::Terminal);
    room.handle_enter(UserId(2), PresentationKind::Terminal);
    let (msg, recips) = room.disconnect_user(UserId(1));
    assert!(matches!(msg, SessionToConnectionMsg::UserExited(_)));
    assert_eq!(recips, vec![UserId(2)]);
    let (_, recips2) = room.disconnect_user(UserId(2));
    assert_eq!(recips2, Vec::<UserId>::new());
    assert!(room.is_idle());
}

#[test]
fn game_session_admits_only_declared_players() {
    let mut s = GameSessionState::new(GameId(3), 2);
    assert!(s.handle_enter(0));
    assert!(s.handle_enter(1));
    assert!(!s.handle_enter(2));
    assert_eq!(s.players, vec![0, 1]);
}

#[test]
fn game_session_arms_the_deadline_and_synthesizes_a_timeout() {
    let mut s = GameSessionState::new(GameId(3), 2);
    let state = GameState::InProgress(playferrous::game::InProgressGameState {
        player_turn: 1,
        deadline: GameTick(101),
    });
    assert!(s.apply_state(&state).is_none());
    assert!(s.deadline_elapsed(GameTick(100)).is_none());
    match s.deadline_elapsed(GameTick(101)) {
        Some(GameSessionAction::Advance { tick, action }) => {
            assert_eq!(tick, GameTick(101));
            assert!(action.is_none());
        }
        _ => panic!("expected a synthesized advance"),
    }
}

#[test]
fn game_session_completes_on_the_final_report() {
    let mut s = GameSessionState::new(GameId(3), 2);
    let state = GameState::Complete(GameResult {
        player_results: vec![PlayerResult { score: 0 }, PlayerResult { score: 3 }],
    });
    match s.apply_state(&state) {
        Some(GameSessionAction::CompleteGame(result)) => {
            assert_eq!(result.player_results.len(), 2);
            assert_eq!(result.player_results[1].score, 3);
        }
        _ => panic!("expected completion"),
    }
    assert_eq!(s.phase, GameSessionPhase::Complete);
}

#[test]
fn game_session_snapshot_failure_retries_once() {
    let mut s = GameSessionState::new(GameId(3), 2);
    assert!(matches!(s.snapshot_failed(), GameSessionAction::SaveSnapshot));
    assert!(matches!(s.snapshot_failed(), GameSessionAction::Terminate));
    assert_eq!(s.phase, GameSessionPhase::Failed);
}

#[test]
fn subprocess_crash_terminates_the_session() {
    // During an Advance the subprocess dies: the driver reports it, the
    // session persists nothing further and terminates.
    let mut s = GameSessionState::new(GameId(3), 2);
    assert!(matches!(s.driver_failed(), GameSessionAction::Terminate));
    assert_eq!(s.phase, GameSessionPhase::Failed);
}

#[test]
fn connection_routes_presentation_requests() {
    let mut c = ConnectionState::new(UserId(1), PresentationKind::Terminal);
    assert!(matches!(
        c.handle_presentation_msg(PresentationToConnectionMsg::ListProposals),
        Ok(ConnectionStep::QueryProposals)
    ));
    assert!(matches!(
        c.handle_presentation_msg(PresentationToConnectionMsg::ListSessions),
        Ok(ConnectionStep::QuerySessions)
    ));
    assert!(matches!(
        c.handle_presentation_msg(PresentationToConnectionMsg::ListMessages),
        Ok(ConnectionStep::QueryMessages)
    ));
    match c.handle_presentation_msg(PresentationToConnectionMsg::Propose(
        playferrous::presentation::CreateGameProposal { game_type: "chess".to_string() },
    )) {
        Ok(ConnectionStep::CreateProposal(t)) => assert_eq!(t, "chess"),
        _ => panic!("expected a proposal transaction"),
    }
    assert!(matches!(
        c.handle_presentation_msg(PresentationToConnectionMsg::Withdraw(GameProposalId(1))),
        Err(ConnectionError::Present(_))
    ));
}

#[test]
fn connection_exit_without_session_is_a_soft_failure() {
    let mut c = ConnectionState::new(UserId(1), PresentationKind::Terminal);
    match c.handle_presentation_msg(PresentationToConnectionMsg::Exit) {
        Err(ConnectionError::Present(t)) => assert_eq!(t, "No active session"),
        _ => panic!("expected a soft failure"),
    }
    assert!(matches!(
        c.handle_presentation_msg(PresentationToConnectionMsg::SessionCommand(
            SessionCommand::Terminal(TerminalSessionCommand::Line("x".to_string()))
        )),
        Ok(ConnectionStep::Idle)
    ));
}

#[test]
fn connection_enter_resolves_the_session_row() {
    let c = ConnectionState::new(UserId(1), PresentationKind::Terminal);
    match c.enter_resolved(None) {
        Err(ConnectionError::Present(t)) => assert_eq!(t, "Invalid session ID\n"),
        _ => panic!("expected a soft failure"),
    }
    let row = Session {
        id: SessionId(10),
        type_: SessionType::Game,
        user_id: UserId(1),
        created_at: 0,
        game_id: Some(GameId(4)),
        game_player_index: Some(1),
        game_proposal_id: None,
    };
    match c.enter_resolved(Some(row)) {
        Ok(ConnectionStep::JoinGame { game_id, player_index }) => {
            assert_eq!(game_id, GameId(4));
            assert_eq!(player_index, 1);
        }
        _ => panic!("expected a game join"),
    }
    let foreign = Session { user_id: UserId(2), ..row };
    match c.enter_resolved(Some(foreign)) {
        Err(ConnectionError::Present(t)) => assert_eq!(t, "Invalid session ID\n"),
        _ => panic!("expected a soft failure"),
    }
}

#[test]
fn connection_session_lifecycle() {
    let mut c = ConnectionState::new(UserId(1), PresentationKind::Terminal);
    let info = playferrous::presentation::SessionInfo {
        id: SessionId(10),
        kind: playferrous::presentation::SessionKind::Game(GameId(4)),
    };
    assert!(matches!(
        c.entered(info),
        ConnectionStep::ToPresentation(ConnectionToPresentationMsg::EnteredSession(_))
    ));
    assert_eq!(c.active_session, Some(info));
    match c.handle_presentation_msg(PresentationToConnectionMsg::SessionCommand(
        SessionCommand::Terminal(TerminalSessionCommand::Line("r".to_string())),
    )) {
        Ok(ConnectionStep::ToSession(ConnectionToSessionMsg::Command(SessionCommand::Terminal(
            TerminalSessionCommand::Line(l),
        )))) => assert_eq!(l, "r"),
        _ => panic!("expected a forwarded command"),
    }
    assert!(matches!(
        c.session_closed(),
        Ok(ConnectionStep::ToPresentation(ConnectionToPresentationMsg::ExitedSession))
    ));
    assert_eq!(c.active_session, None);
}

#[test]
fn session_events_become_terminal_lines() {
    let c = ConnectionState::new(UserId(1), PresentationKind::Terminal);
    let member = SessionMember { user_id: UserId(2), player_index: None };
    match c.handle_session_msg(SessionToConnectionMsg::UserEntered(member)) {
        ConnectionToPresentationMsg::SessionEvent(SessionEvent::Terminal(
            TerminalSessionEvent::Line(l),
        )) => assert_eq!(l, "User entered"),
        _ => panic!("expected a line"),
    }
    match c.handle_session_msg(SessionToConnectionMsg::UserExited(member)) {
        ConnectionToPresentationMsg::SessionEvent(SessionEvent::Terminal(
            TerminalSessionEvent::Line(l),
        )) => assert_eq!(l, "User exited"),
        _ => panic!("expected a line"),
    }
}

#[test]
fn broadcast_fans_out_to_every_connection_once() {
    let mut reg = ConnectionRegistry::new();
    let a0 = reg.open(1);
    let a1 = reg.open(1);
    let b0 = reg.open(2);
    let plan = reg.broadcast_targets(&vec![1, 2, 3]);
    assert_eq!(plan, vec![(1, a0), (1, a1), (2, b0)]);
}

#[test]
fn new_proposals_carry_the_default_row() {
    let p = playferrous::records::GameProposal::create_default(GameProposalId(5), "rock-paper-scissors".to_string(), 100);
    assert_eq!(p.id, GameProposalId(5));
    assert_eq!(p.game_type, "rock-paper-scissors");
    assert!(!p.is_public);
    assert_eq!(p.min_players, 2);
    assert_eq!(p.max_players, 8);
    assert_eq!(p.mod_players, 1);
    assert_eq!(p.rules, "null");
    assert_eq!(p.created_at, 100);
    assert_eq!(p.deadline, 400);
}

#[test]
fn a_proposal_seat_links_the_user_to_the_proposal() {
    let seat = Session::new_proposal_seat(SessionId(1), UserId(2), GameProposalId(3), 50);
    assert_eq!(seat.type_, SessionType::GameProposal);
    assert_eq!(seat.user_id, UserId(2));
    assert_eq!(seat.game_proposal_id, Some(GameProposalId(3)));
    assert_eq!(seat.game_id, None);
}

#[test]
fn graceful_shutdown_snapshots_unless_failed() {
    let mut s = GameSessionState::new(GameId(3), 2);
    assert!(matches!(s.graceful_shutdown(), Some(GameSessionAction::SaveSnapshot)));
    s.driver_failed();
    assert!(s.graceful_shutdown().is_none());
}
