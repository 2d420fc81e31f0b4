use playferrous::driver::{DriverError, DriverPhase, GameDriver};
use playferrous::game::{GameRequest, GameResponse, GameState, GenericGame, MessageTag};
use playferrous::process::{handle_request, ProcessError};
use playferrous::rps::{RockPaperScissors, RpsAction, RpsRules};
use playferrous::game::GameSetup;
use playferrous::tick::GameTick;

type Req = GameRequest<GenericGame>;
type Resp = GameResponse<GenericGame>;

#[test]
fn matched_response_frees_the_driver() {
    let mut d = GameDriver::new();
    assert_eq!(d.phase, DriverPhase::Idle);
    let req: Req = GameRequest::State;
    d.issue(&req);
    assert_eq!(d.phase, DriverPhase::Awaiting(MessageTag::State));
    let resp: Resp = GameResponse::State(GameState::InProgress(
        playferrous::game::InProgressGameState { player_turn: 0, deadline: GameTick(10) },
    ));
    assert!(d.finish(resp).is_ok());
    assert_eq!(d.phase, DriverPhase::Idle);
}

#[test]
fn mismatched_response_is_fatal() {
    // Every request is answered by exactly one response; a mismatched
    // discriminator yields a fatal error and the subprocess is finished.
    let mut d = GameDriver::new();
    let req: Req = GameRequest::SaveSnapshot;
    d.issue(&req);
    let resp: Resp = GameResponse::Advance;
    match d.finish(resp) {
        Err(DriverError::ResponseMismatch { expected, got }) => {
            assert_eq!(expected, MessageTag::SaveSnapshot);
            assert_eq!(got, MessageTag::Advance);
        }
        _ => panic!("expected a mismatch error"),
    }
    assert_eq!(d.phase, DriverPhase::Dead);
    assert!(!d.is_alive());
}

#[test]
fn subprocess_crash_kills_the_driver() {
    // The subprocess exits during a request: the driver reports an
    // internal error and can never be used again.
    let mut d = GameDriver::new();
    let req: Req = GameRequest::Advance { tick: GameTick(5), action: "null".to_string() };
    d.issue(&req);
    d.transport_failed();
    assert_eq!(d.phase, DriverPhase::Dead);
    assert!(!d.is_alive());
}

fn rps_setup() -> GameSetup<RockPaperScissors> {
    GameSetup {
        game_type: "rock-paper-scissors".to_string(),
        num_players: 2,
        seed: 0,
        rules: RpsRules { num_rounds: 1, turn_timeout: GameTick(100) },
    }
}

#[test]
fn initialize_must_come_first() {
    let mut game: Option<RockPaperScissors> = None;
    assert!(matches!(
        handle_request(&mut game, GameRequest::State),
        Err(ProcessError::OutOfOrder)
    ));
    assert!(matches!(
        handle_request(&mut game, GameRequest::Initialize(rps_setup())),
        Ok(GameResponse::Initialize)
    ));
    assert!(matches!(
        handle_request(&mut game, GameRequest::Initialize(rps_setup())),
        Err(ProcessError::OutOfOrder)
    ));
}

#[test]
fn machine_mode_plays_a_whole_round() {
    let mut game: Option<RockPaperScissors> = None;
    handle_request(&mut game, GameRequest::Initialize(rps_setup())).unwrap();

    let r0 = handle_request(
        &mut game,
        GameRequest::InterpretConsoleCommand { player: 0, command: "r".to_string() },
    )
    .unwrap();
    let a0 = match r0 {
        GameResponse::InterpretConsoleCommand(Some(cr)) => cr.advance.unwrap(),
        _ => panic!("expected an interpretation"),
    };
    assert_eq!(a0, Some(RpsAction::Rock));
    handle_request(&mut game, GameRequest::Advance { tick: GameTick(1), action: a0 }).unwrap();

    let r1 = handle_request(
        &mut game,
        GameRequest::InterpretConsoleCommand { player: 1, command: "p".to_string() },
    )
    .unwrap();
    let a1 = match r1 {
        GameResponse::InterpretConsoleCommand(Some(cr)) => cr.advance.unwrap(),
        _ => panic!("expected an interpretation"),
    };
    handle_request(&mut game, GameRequest::Advance { tick: GameTick(2), action: a1 }).unwrap();

    match handle_request(&mut game, GameRequest::State).unwrap() {
        GameResponse::State(GameState::Complete(result)) => {
            assert_eq!(result.player_results[0].score, 0);
            assert_eq!(result.player_results[1].score, 3);
        }
        _ => panic!("expected a completed game"),
    }
}

#[test]
fn machine_mode_snapshots_round_trip() {
    let mut game: Option<RockPaperScissors> = None;
    handle_request(&mut game, GameRequest::Initialize(rps_setup())).unwrap();
    handle_request(
        &mut game,
        GameRequest::Advance { tick: GameTick(3), action: Some(RpsAction::Paper) },
    )
    .unwrap();
    let snap = match handle_request(&mut game, GameRequest::SaveSnapshot).unwrap() {
        GameResponse::SaveSnapshot(s) => s,
        _ => panic!("expected a snapshot"),
    };
    let mut other: Option<RockPaperScissors> = None;
    handle_request(&mut other, GameRequest::Initialize(rps_setup())).unwrap();
    handle_request(&mut other, GameRequest::LoadSnapshot(snap)).unwrap();
    let restored = match handle_request(&mut other, GameRequest::SaveSnapshot).unwrap() {
        GameResponse::SaveSnapshot(s) => s,
        _ => panic!("expected a snapshot"),
    };
    assert_eq!(restored.player0_action, Some(RpsAction::Paper));
    assert_eq!(restored.last_action, GameTick(3));
    assert_eq!(restored.rounds_played, 0);
}

#[test]
fn machine_mode_rejects_a_malformed_snapshot() {
    let mut game: Option<RockPaperScissors> = None;
    handle_request(&mut game, GameRequest::Initialize(rps_setup())).unwrap();
    let mut snap = match handle_request(&mut game, GameRequest::SaveSnapshot).unwrap() {
        GameResponse::SaveSnapshot(s) => s,
        _ => panic!("expected a snapshot"),
    };
    snap.player0_score = -1;
    assert!(matches!(
        handle_request(&mut game, GameRequest::LoadSnapshot(snap)),
        Err(ProcessError::InvalidArgument)
    ));
}

#[test]
fn machine_mode_rejects_an_invalid_player() {
    let mut game: Option<RockPaperScissors> = None;
    handle_request(&mut game, GameRequest::Initialize(rps_setup())).unwrap();
    handle_request(
        &mut game,
        GameRequest::Advance { tick: GameTick(1), action: Some(RpsAction::Rock) },
    )
    .unwrap();
    handle_request(
        &mut game,
        GameRequest::Advance { tick: GameTick(2), action: Some(RpsAction::Rock) },
    )
    .unwrap();
    // A round has been fought, so the recap line needs a real player.
    assert!(matches!(
        handle_request(&mut game, GameRequest::RenderConsoleUi { player: 9 }),
        Err(ProcessError::InvalidPlayer)
    ));
}
