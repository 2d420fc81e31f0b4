use playferrous::game::GameState;
use playferrous::rps::{Outcome, RockPaperScissors, RpsAction, RpsRules};
use playferrous::tick::GameTick;

fn one_round_game() -> RockPaperScissors {
    RockPaperScissors::new(RpsRules { num_rounds: 1, turn_timeout: GameTick(100) })
}

#[test]
fn outcome_scores() {
    assert_eq!(Outcome::Won.score(), 3);
    assert_eq!(Outcome::Drew.score(), 1);
    assert_eq!(Outcome::Lost.score(), 0);
}

#[test]
fn outcome_negation() {
    assert_eq!(Outcome::Won.neg(), Outcome::Lost);
    assert_eq!(Outcome::Lost.neg(), Outcome::Won);
    assert_eq!(Outcome::Drew.neg(), Outcome::Drew);
}

#[test]
fn player_turn_alternates_within_a_round() {
    let mut g = one_round_game();
    assert_eq!(g.player_turn(), 0);
    g.advance(GameTick(1), Some(RpsAction::Rock));
    assert_eq!(g.player_turn(), 1);
}

#[test]
fn rock_paper_scissors_round() {
    // Player 0 sends "r", player 1 sends "p"; the session advances twice,
    // queries state, and the game completes 0 : 3.
    let mut g = one_round_game();

    let cr0 = g.interpret_console_command(0, "r").unwrap();
    assert!(cr0.update_ui.is_none());
    assert_eq!(cr0.advance, Some(Some(RpsAction::Rock)));
    g.advance(GameTick(1), cr0.advance.unwrap());

    let cr1 = g.interpret_console_command(1, "p").unwrap();
    assert_eq!(cr1.advance, Some(Some(RpsAction::Paper)));
    g.advance(GameTick(2), cr1.advance.unwrap());

    match g.state() {
        GameState::Complete(result) => {
            assert_eq!(result.player_results.len(), 2);
            assert_eq!(result.player_results[0].score, 0);
            assert_eq!(result.player_results[1].score, 3);
        }
        GameState::InProgress(_) => panic!("game should be complete"),
    }
}

#[test]
fn deadline_timeout_awards_the_waiting_player() {
    // Player 1 never responds; the session synthesizes a null action and
    // the game awards player 0 the round.
    let mut g = one_round_game();
    g.advance(GameTick(1), Some(RpsAction::Rock));
    match g.state() {
        GameState::InProgress(p) => {
            assert_eq!(p.player_turn, 1);
            assert_eq!(p.deadline, GameTick(101));
        }
        GameState::Complete(_) => panic!("game should be in progress"),
    }
    g.advance(GameTick(101), None);
    match g.state() {
        GameState::Complete(result) => {
            assert_eq!(result.player_results[0].score, 3);
            assert_eq!(result.player_results[1].score, 0);
        }
        GameState::InProgress(_) => panic!("game should be complete"),
    }
}

#[test]
fn timeout_of_the_first_player_forfeits_to_the_second() {
    let mut g = one_round_game();
    g.advance(GameTick(50), None);
    match g.state() {
        GameState::Complete(result) => {
            assert_eq!(result.player_results[0].score, 0);
            assert_eq!(result.player_results[1].score, 3);
        }
        GameState::InProgress(_) => panic!("game should be complete"),
    }
}

#[test]
fn draw_scores_one_each() {
    let mut g = one_round_game();
    g.advance(GameTick(1), Some(RpsAction::Scissors));
    g.advance(GameTick(2), Some(RpsAction::Scissors));
    match g.state() {
        GameState::Complete(result) => {
            assert_eq!(result.player_results[0].score, 1);
            assert_eq!(result.player_results[1].score, 1);
        }
        GameState::InProgress(_) => panic!("game should be complete"),
    }
}

#[test]
fn round_prompts_describe_the_fight() {
    let mut g = one_round_game();
    g.advance(GameTick(1), Some(RpsAction::Rock));
    g.advance(GameTick(2), Some(RpsAction::Paper));
    let snap = g.save_snapshot();
    assert_eq!(snap.player0_prompt, "You played rock and lost against paper.");
    assert_eq!(snap.player1_prompt, "You played paper and won against rock.");
}

#[test]
fn out_of_turn_command_is_rendered_not_advanced() {
    let g = one_round_game();
    let cr = g.interpret_console_command(1, "r").unwrap();
    assert!(cr.advance.is_none());
    assert_eq!(cr.update_ui.unwrap().prompt, "It's not your turn yet!");
}

#[test]
fn unknown_game_command_is_rejected() {
    let g = one_round_game();
    let cr = g.interpret_console_command(0, "lizard").unwrap();
    assert!(cr.advance.is_none());
    assert_eq!(cr.update_ui.unwrap().prompt, "Invalid command: lizard");
}

#[test]
fn game_commands_ignore_ascii_case() {
    let g = one_round_game();
    assert_eq!(
        g.interpret_console_command(0, "ROCK").unwrap().advance,
        Some(Some(RpsAction::Rock))
    );
    assert_eq!(
        g.interpret_console_command(0, "P").unwrap().advance,
        Some(Some(RpsAction::Paper))
    );
    assert_eq!(
        g.interpret_console_command(0, "sCiSsOrS").unwrap().advance,
        Some(Some(RpsAction::Scissors))
    );
}

#[test]
fn snapshot_round_trip_restores_the_state() {
    let mut g = one_round_game();
    g.advance(GameTick(7), Some(RpsAction::Paper));
    let snap = g.save_snapshot();
    let mut h = one_round_game();
    h.load_snapshot(snap);
    let restored = h.save_snapshot();
    assert_eq!(restored.player0_score, 0);
    assert_eq!(restored.player1_score, 0);
    assert_eq!(restored.rounds_played, 0);
    assert_eq!(restored.player0_action, Some(RpsAction::Paper));
    assert_eq!(restored.last_action, GameTick(7));
    assert_eq!(h.player_turn(), 1);
}

#[test]
fn console_ui_renders_turn_prompts() {
    let g = one_round_game();
    let ui = g.render_console_ui(0).unwrap().unwrap();
    assert_eq!(
        ui.prompt,
        "Round 1 of 1 - It's your go! Enter [r]ock, [p]aper or [s]cissors:\n"
    );
    let ui1 = g.render_console_ui(1).unwrap().unwrap();
    assert_eq!(ui1.prompt, "Round 1 of 1 - Waiting for the other player...\n");
}

#[test]
fn console_ui_recaps_the_last_round() {
    let mut g = RockPaperScissors::new(RpsRules { num_rounds: 2, turn_timeout: GameTick(100) });
    g.advance(GameTick(1), Some(RpsAction::Rock));
    g.advance(GameTick(2), Some(RpsAction::Scissors));
    let ui = g.render_console_ui(0).unwrap().unwrap();
    assert_eq!(
        ui.prompt,
        "Round 1 of 2 - You played rock and won against scissors.\n\
         Round 2 of 2 - It's your go! Enter [r]ock, [p]aper or [s]cissors:\n"
    );
    assert!(g.render_console_ui(5).is_err());
}
