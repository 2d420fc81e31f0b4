//! Rock-paper-scissors, a reference game implementation.
//!
//! The game is played over a fixed number of rounds. Within a round player 0
//! commits an action first, then player 1; a round with both actions is
//! scored 3/0 (win/lose) or 1/1 (draw). A missing action (the other player's
//! deadline elapsed) forfeits the round to the player who acted — or to
//! player 1 when player 0 was the one who failed to act.

use vstd::prelude::*;
use vstd::string::StrSliceExecFns;
use vstd::string::StringExecFns;
use crate::game::{CommandResponse, ConsoleUi, Game, GameResult, GameState, InProgressGameState,
    PlayerResult};
use crate::ids::{dec_digits, render_uint};
use crate::text::{eq_ignore_ascii_case, eq_ignore_case};
use crate::tick::GameTick;

verus! {

/// The action a console command names, ignoring ASCII case: `r`/`rock`,
/// `p`/`paper`, `s`/`scissors`; anything else names none.
pub open spec fn spec_command_action(s: Seq<char>) -> Option<RpsAction> {
    if eq_ignore_case(s, "r"@) || eq_ignore_case(s, "rock"@) {
        Some(RpsAction::Rock)
    } else if eq_ignore_case(s, "p"@) || eq_ignore_case(s, "paper"@) {
        Some(RpsAction::Paper)
    } else if eq_ignore_case(s, "s"@) || eq_ignore_case(s, "scissors"@) {
        Some(RpsAction::Scissors)
    } else {
        None
    }
}

/// Error returned when a request names a player the game does not have.
#[derive(Debug, Clone, Copy, PartialEq, Eq, Structural)]
pub struct InvalidPlayerError;

/// Rules of a rock-paper-scissors match: how many rounds, and how long a
/// player may take over a turn (in game ticks).
#[derive(Debug, Clone, Copy, PartialEq, Eq, Structural)]
pub struct RpsRules {
    pub num_rounds: i64,
    pub turn_timeout: GameTick,
}

/// One player action.
#[derive(Debug, Clone, Copy, PartialEq, Eq, Structural)]
pub enum RpsAction {
    Rock,
    Paper,
    Scissors,
}

/// How a round went for one player.
#[derive(Debug, Clone, Copy, PartialEq, Eq, Structural)]
pub enum Outcome {
    Won,
    Lost,
    Drew,
}

/// The outcome for the player who played `a0` against `a1`.
pub open spec fn outcome_of(a0: RpsAction, a1: RpsAction) -> Outcome {
    match (a0, a1) {
        (RpsAction::Rock, RpsAction::Rock) => Outcome::Drew,
        (RpsAction::Paper, RpsAction::Paper) => Outcome::Drew,
        (RpsAction::Scissors, RpsAction::Scissors) => Outcome::Drew,
        (RpsAction::Rock, RpsAction::Paper) => Outcome::Lost,
        (RpsAction::Paper, RpsAction::Scissors) => Outcome::Lost,
        (RpsAction::Scissors, RpsAction::Rock) => Outcome::Lost,
        (RpsAction::Rock, RpsAction::Scissors) => Outcome::Won,
        (RpsAction::Paper, RpsAction::Rock) => Outcome::Won,
        (RpsAction::Scissors, RpsAction::Paper) => Outcome::Won,
    }
}

/// The opposing player's outcome.
pub open spec fn neg_of(o: Outcome) -> Outcome {
    match o {
        Outcome::Won => Outcome::Lost,
        Outcome::Lost => Outcome::Won,
        Outcome::Drew => Outcome::Drew,
    }
}

/// Points awarded for an outcome: 3 for a win, 1 for a draw, 0 for a loss.
pub open spec fn score_of(o: Outcome) -> int {
    match o {
        Outcome::Won => 3,
        Outcome::Lost => 0,
        Outcome::Drew => 1,
    }
}

impl Outcome {
    /// The opposing player's outcome.
    pub fn neg(self) -> (r: Outcome)
        ensures
            r == neg_of(self),
    {
        match self {
            Outcome::Won => Outcome::Lost,
            Outcome::Lost => Outcome::Won,
            Outcome::Drew => Outcome::Drew,
        }
    }

    /// Points awarded for this outcome.
    pub fn score(self) -> (r: i64)
        ensures
            r == score_of(self),
    {
        match self {
            Outcome::Won => 3,
            Outcome::Lost => 0,
            Outcome::Drew => 1,
        }
    }

    /// The outcome as a word, for prompts.
    pub fn as_str(self) -> (r: &'static str)
        ensures
            r@ == outcome_name(self),
    {
        match self {
            Outcome::Won => "won",
            Outcome::Lost => "lost",
            Outcome::Drew => "drew",
        }
    }
}

/// The rendering of an outcome in a prompt.
pub open spec fn outcome_name(o: Outcome) -> Seq<char> {
    match o {
        Outcome::Won => "won"@,
        Outcome::Lost => "lost"@,
        Outcome::Drew => "drew"@,
    }
}

/// The rendering of an action in a prompt.
pub open spec fn action_name(a: RpsAction) -> Seq<char> {
    match a {
        RpsAction::Rock => "rock"@,
        RpsAction::Paper => "paper"@,
        RpsAction::Scissors => "scissors"@,
    }
}

impl RpsAction {
    /// The action as a word, for prompts.
    pub fn as_str(self) -> (r: &'static str)
        ensures
            r@ == action_name(self),
    {
        match self {
            RpsAction::Rock => "rock",
            RpsAction::Paper => "paper",
            RpsAction::Scissors => "scissors",
        }
    }
}

/// The whole state of a match: scores, rounds played, player 0's committed
/// action for the current round, when the last action landed, and the
/// prompt each player last earned.
#[derive(Debug)]
pub struct RpsSnapshot {
    pub player0_score: i64,
    pub player1_score: i64,
    pub rounds_played: i64,
    pub player0_action: Option<RpsAction>,
    pub last_action: GameTick,
    pub player0_prompt: String,
    pub player1_prompt: String,
}

impl RpsSnapshot {
    /// The empty state a fresh match starts from.
    pub fn initial() -> (r: RpsSnapshot)
        ensures
            r.player0_score == 0,
            r.player1_score == 0,
            r.rounds_played == 0,
            r.player0_action is None,
            r.last_action.0 == 0,
            r.player0_prompt@ == Seq::<char>::empty(),
            r.player1_prompt@ == Seq::<char>::empty(),
    {
        RpsSnapshot {
            player0_score: 0,
            player1_score: 0,
            rounds_played: 0,
            player0_action: None,
            last_action: GameTick(0),
            player0_prompt: String::new(),
            player1_prompt: String::new(),
        }
    }

    /// A field-for-field copy of this snapshot.
    pub fn duplicate(&self) -> (r: RpsSnapshot)
        ensures
            r == *self,
    {
        RpsSnapshot {
            player0_score: self.player0_score,
            player1_score: self.player1_score,
            rounds_played: self.rounds_played,
            player0_action: self.player0_action,
            last_action: self.last_action,
            player0_prompt: self.player0_prompt.clone(),
            player1_prompt: self.player1_prompt.clone(),
        }
    }
}

/// A bound on round counts so that scores and round arithmetic can never
/// overflow a signed 64-bit integer.
pub open spec fn max_rounds() -> int {
    0x1fff_ffff_ffff_ffff
}

/// Well-formedness of rules: a representable, non-negative round count and
/// a timeout that keeps deadline arithmetic in range.
pub open spec fn rules_wf(r: RpsRules) -> bool {
    0 <= r.num_rounds <= max_rounds()
}

/// Well-formedness of a snapshot under its rules: scores are what completed
/// rounds can have produced, and the deadline sum stays representable.
pub open spec fn snapshot_wf(rules: RpsRules, st: RpsSnapshot) -> bool {
    &&& 0 <= st.rounds_played <= rules.num_rounds
    &&& 0 <= st.player0_score <= 3 * st.rounds_played
    &&& 0 <= st.player1_score <= 3 * st.rounds_played
    &&& i64::MIN <= st.last_action.0 + rules.turn_timeout.0 <= i64::MAX
}

/// A rock-paper-scissors match: fixed rules plus the evolving state.
#[derive(Debug)]
pub struct RockPaperScissors {
    pub rules: RpsRules,
    pub state: RpsSnapshot,
}

impl Game for RockPaperScissors {
    type Snapshot = RpsSnapshot;
    type Action = Option<RpsAction>;
    type Rules = RpsRules;
}

/// Whose turn it is: player 0 until it commits an action, then player 1.
pub open spec fn spec_player_turn(st: RpsSnapshot) -> int {
    if st.player0_action is Some {
        1
    } else {
        0
    }
}

/// Well-formedness of a whole match value.
pub open spec fn game_wf(g: RockPaperScissors) -> bool {
    rules_wf(g.rules) && snapshot_wf(g.rules, g.state)
}

/// The prompt a player sees after a fought round: what they played, how it
/// went, and what the opponent played.
pub open spec fn round_prompt(mine: RpsAction, o: Outcome, theirs: RpsAction) -> Seq<char> {
    "You played "@ + action_name(mine) + " and "@ + outcome_name(o) + " against "@ + action_name(
        theirs,
    ) + "."@
}

/// The prompt for winning a round on the opponent's timeout.
pub open spec fn timeout_won_prompt() -> Seq<char> {
    "You won this round because the other player took too long to go."@
}

/// The prompt for losing a round to one's own timeout.
pub open spec fn timeout_lost_prompt() -> Seq<char> {
    "You lost this round because you took too long to go."@
}

/// Builds the post-round prompt for one player.
fn build_round_prompt(mine: RpsAction, o: Outcome, theirs: RpsAction) -> (r: String)
    ensures
        r@ == round_prompt(mine, o, theirs),
{
    let mut s = String::from_str("You played ");
    s.append(mine.as_str());
    s.append(" and ");
    s.append(o.as_str());
    s.append(" against ");
    s.append(theirs.as_str());
    s.append(".");
    s
}


/// How one `advance` call transforms the state: the round fight, the
/// timeout forfeits, or player 0's committed action.
pub open spec fn spec_advance(
    pre: RpsSnapshot,
    post: RpsSnapshot,
    tick: GameTick,
    action: Option<RpsAction>,
) -> bool {
    &&& post.last_action == tick
    &&& match pre.player0_action {
        Some(a0) => {
            let o0 = match action {
                Some(a1) => outcome_of(a0, a1),
                None => Outcome::Won,
            };
            &&& post.player0_action is None
            &&& post.rounds_played == pre.rounds_played + 1
            &&& post.player0_score == pre.player0_score + score_of(o0)
            &&& post.player1_score == pre.player1_score + score_of(neg_of(o0))
            &&& match action {
                Some(a1) => post.player0_prompt@ == round_prompt(a0, o0, a1)
                    && post.player1_prompt@ == round_prompt(a1, neg_of(o0), a0),
                None => post.player0_prompt@ == timeout_won_prompt() && post.player1_prompt@
                    == timeout_lost_prompt(),
            }
        },
        None => match action {
            Some(_) => {
                &&& post.player0_action == action
                &&& post.rounds_played == pre.rounds_played
                &&& post.player0_score == pre.player0_score
                &&& post.player1_score == pre.player1_score
                &&& post.player0_prompt == pre.player0_prompt
                &&& post.player1_prompt == pre.player1_prompt
            },
            None => {
                &&& post.player0_action is None
                &&& post.rounds_played == pre.rounds_played + 1
                &&& post.player0_score == pre.player0_score
                &&& post.player1_score == pre.player1_score + 3
                &&& post.player0_prompt@ == timeout_lost_prompt()
                &&& post.player1_prompt@ == timeout_won_prompt()
            },
        },
    }
}

/// What a state report says: in progress with the turn and deadline while
/// rounds remain, complete with both scores otherwise.
pub open spec fn spec_state_report(rules: RpsRules, st: RpsSnapshot, r: GameState) -> bool {
    if st.rounds_played < rules.num_rounds {
        r matches GameState::InProgress(p) && p.player_turn == spec_player_turn(st) && p.deadline.0
            == st.last_action.0 + rules.turn_timeout.0
    } else {
        r matches GameState::Complete(c) && c.player_results@.len() == 2 && c.player_results@[0].score
            == st.player0_score && c.player_results@[1].score == st.player1_score
    }
}

/// What interpreting a console command answers: a "not your turn" prompt
/// out of turn; in turn, the named action to advance with, or an "invalid
/// command" prompt.
pub open spec fn spec_interpreted(
    st: RpsSnapshot,
    player: i32,
    command: Seq<char>,
    cr: CommandResponse<ConsoleUi, RockPaperScissors>,
) -> bool {
    if player != spec_player_turn(st) {
        &&& cr.advance is None
        &&& cr.update_ui matches Some(ui) && ui.prompt@ == "It's not your turn yet!"@
    } else {
        match spec_command_action(command) {
            Some(a) => cr.advance == Some(Some(a)) && cr.update_ui is None,
            None => cr.advance is None && (cr.update_ui matches Some(ui) && ui.prompt@
                == "Invalid command: "@ + command),
        }
    }
}

impl RockPaperScissors {
    /// A fresh match under the given rules.
    pub fn new(rules: RpsRules) -> (r: RockPaperScissors)
        requires
            rules_wf(rules),
            i64::MIN <= rules.turn_timeout.0 <= i64::MAX,
        ensures
            r.rules == rules,
            r.state.player0_score == 0,
            r.state.player1_score == 0,
            r.state.rounds_played == 0,
            r.state.player0_action is None,
            r.state.last_action.0 == 0,
            r.state.player0_prompt@ == Seq::<char>::empty(),
            r.state.player1_prompt@ == Seq::<char>::empty(),
            game_wf(r),
    {
        let st = RpsSnapshot::initial();
        RockPaperScissors { rules, state: st }
    }

    /// Whose turn it is: player 0 until it commits, then player 1.
    pub fn player_turn(&self) -> (r: i32)
        ensures
            r == spec_player_turn(self.state),
    {
        if self.state.player0_action.is_some() {
            1
        } else {
            0
        }
    }

    /// Replaces the whole state with a previously saved snapshot.
    pub fn load_snapshot(&mut self, snapshot: RpsSnapshot)
        ensures
            final(self).rules == old(self).rules,
            final(self).state == snapshot,
    {
        self.state = snapshot;
    }

    /// The current state, for persistence.
    pub fn save_snapshot(&self) -> (r: RpsSnapshot)
        ensures
            r == self.state,
    {
        self.state.duplicate()
    }

    /// Applies one action (or, for `None`, a timeout on whoever's turn it
    /// is) at logical time `tick`.
    ///
    /// With player 0 yet to act: a real action is stored and the round
    /// stays open; a timeout scores the round 0/3 against player 0. With
    /// player 0 committed: player 1's real action fights the round out;
    /// a timeout scores it 3/0 for player 0. Every completed round updates
    /// both prompts.
    pub fn advance(&mut self, tick: GameTick, action: Option<RpsAction>)
        requires
            game_wf(*old(self)),
            old(self).state.rounds_played < old(self).rules.num_rounds,
            i64::MIN <= tick.0 + old(self).rules.turn_timeout.0 <= i64::MAX,
        ensures
            final(self).rules == old(self).rules,
            game_wf(*final(self)),
            spec_advance(old(self).state, final(self).state, tick, action),
    {
        match self.state.player0_action {
            Some(player0_action) => {
                self.state.player0_action = None;
                let player0_outcome = match action {
                    Some(player1_action) => {
                        let o0 = match (player0_action, player1_action) {
                            (RpsAction::Rock, RpsAction::Rock) => Outcome::Drew,
                            (RpsAction::Paper, RpsAction::Paper) => Outcome::Drew,
                            (RpsAction::Scissors, RpsAction::Scissors) => Outcome::Drew,
                            (RpsAction::Rock, RpsAction::Paper) => Outcome::Lost,
                            (RpsAction::Paper, RpsAction::Scissors) => Outcome::Lost,
                            (RpsAction::Scissors, RpsAction::Rock) => Outcome::Lost,
                            (RpsAction::Rock, RpsAction::Scissors) => Outcome::Won,
                            (RpsAction::Paper, RpsAction::Rock) => Outcome::Won,
                            (RpsAction::Scissors, RpsAction::Paper) => Outcome::Won,
                        };
                        self.state.player0_prompt = build_round_prompt(
                            player0_action,
                            o0,
                            player1_action,
                        );
                        self.state.player1_prompt = build_round_prompt(
                            player1_action,
                            o0.neg(),
                            player0_action,
                        );
                        o0
                    },
                    None => {
                        self.state.player0_prompt = String::from_str(
                            "You won this round because the other player took too long to go.",
                        );
                        self.state.player1_prompt = String::from_str(
                            "You lost this round because you took too long to go.",
                        );
                        Outcome::Won
                    },
                };
                self.state.player0_score = self.state.player0_score + player0_outcome.score();
                self.state.player1_score = self.state.player1_score + player0_outcome.neg().score();
                self.state.rounds_played = self.state.rounds_played + 1;
            },
            None => {
                if action.is_none() {
                    self.state.player0_prompt = String::from_str(
                        "You lost this round because you took too long to go.",
                    );
                    self.state.player1_prompt = String::from_str(
                        "You won this round because the other player took too long to go.",
                    );
                    self.state.player1_score = self.state.player1_score + 3;
                    self.state.rounds_played = self.state.rounds_played + 1;
                }
                self.state.player0_action = action;
            },
        }
        self.state.last_action = tick;
    }

    /// The reported game state: in progress with the current turn and its
    /// deadline while rounds remain, else complete with both scores.
    pub fn state(&self) -> (r: GameState)
        requires
            game_wf(*self),
        ensures
            spec_state_report(self.rules, self.state, r),
    {
        if self.state.rounds_played < self.rules.num_rounds {
            GameState::InProgress(
                InProgressGameState {
                    player_turn: self.player_turn(),
                    deadline: self.state.last_action.add(self.rules.turn_timeout),
                },
            )
        } else {
            let mut results: Vec<PlayerResult> = Vec::new();
            results.push(PlayerResult { score: self.state.player0_score });
            results.push(PlayerResult { score: self.state.player1_score });
            GameState::Complete(GameResult { player_results: results })
        }
    }

    /// Interprets a console line from `player`: out of turn it earns a
    /// "not your turn" prompt; in turn, `r`/`rock`, `p`/`paper` and
    /// `s`/`scissors` (case-insensitive) become the action to advance
    /// with, and anything else earns an "invalid command" prompt.
    pub fn interpret_console_command(&self, player: i32, command: &str) -> (r: Option<
        CommandResponse<ConsoleUi, RockPaperScissors>,
    >)
        ensures
            r matches Some(cr) && spec_interpreted(self.state, player, command@, cr),
    {
        if player != self.player_turn() {
            Some(
                CommandResponse {
                    update_ui: Some(ConsoleUi { prompt: String::from_str("It's not your turn yet!") }),
                    advance: None,
                },
            )
        } else if eq_ignore_ascii_case(command, "r") || eq_ignore_ascii_case(command, "rock") {
            Some(CommandResponse { update_ui: None, advance: Some(Some(RpsAction::Rock)) })
        } else if eq_ignore_ascii_case(command, "p") || eq_ignore_ascii_case(command, "paper") {
            Some(CommandResponse { update_ui: None, advance: Some(Some(RpsAction::Paper)) })
        } else if eq_ignore_ascii_case(command, "s") || eq_ignore_ascii_case(command, "scissors") {
            Some(CommandResponse { update_ui: None, advance: Some(Some(RpsAction::Scissors)) })
        } else {
            let mut prompt = String::from_str("Invalid command: ");
            prompt.append(command);
            Some(CommandResponse { update_ui: Some(ConsoleUi { prompt }), advance: None })
        }
    }
}

/// The console prompt for `player`: a recap line after a completed round
/// (while no new action is committed), then the current round's call to
/// act or wait, while rounds remain.
pub open spec fn spec_render_prompt(rules: RpsRules, st: RpsSnapshot, player: i32) -> Seq<char> {
    let head = if st.player0_action is None && st.rounds_played > 0 {
        "Round "@ + dec_digits(st.rounds_played as nat) + " of "@ + dec_digits(
            rules.num_rounds as nat,
        ) + " - "@ + (if player == 0 {
            st.player0_prompt@
        } else {
            st.player1_prompt@
        }) + "\n"@
    } else {
        Seq::<char>::empty()
    };
    let tail = if st.rounds_played < rules.num_rounds {
        "Round "@ + dec_digits((st.rounds_played + 1) as nat) + " of "@ + dec_digits(
            rules.num_rounds as nat,
        ) + " - "@ + (if spec_player_turn(st) == player {
            "It's your go! Enter [r]ock, [p]aper or [s]cissors:\n"@
        } else {
            "Waiting for the other player...\n"@
        })
    } else {
        Seq::<char>::empty()
    };
    head + tail
}

impl RockPaperScissors {
    /// Renders the console prompt for `player`. The recap line names a
    /// player, so while a recap is due only players 0 and 1 are valid.
    pub fn render_console_ui(&self, player: i32) -> (r: Result<
        Option<ConsoleUi>,
        InvalidPlayerError,
    >)
        requires
            game_wf(*self),
        ensures
            ({
                let recap = self.state.player0_action is None && self.state.rounds_played > 0;
                if recap && player != 0 && player != 1 {
                    r matches Err(InvalidPlayerError)
                } else {
                    r matches Ok(Some(ui)) && ui.prompt@ == spec_render_prompt(
                        self.rules,
                        self.state,
                        player,
                    )
                }
            }),
    {
        let mut prompt = String::new();
        if self.state.player0_action.is_none() && self.state.rounds_played > 0 {
            if player != 0 && player != 1 {
                return Err(InvalidPlayerError);
            }
            prompt.append("Round ");
            let played = render_uint(self.state.rounds_played as u64);
            prompt.append(played.as_str());
            prompt.append(" of ");
            let total = render_uint(self.rules.num_rounds as u64);
            prompt.append(total.as_str());
            prompt.append(" - ");
            if player == 0 {
                prompt.append(self.state.player0_prompt.as_str());
            } else {
                prompt.append(self.state.player1_prompt.as_str());
            }
            prompt.append("\n");
        }
        if self.state.rounds_played < self.rules.num_rounds {
            prompt.append("Round ");
            let current = render_uint((self.state.rounds_played + 1) as u64);
            prompt.append(current.as_str());
            prompt.append(" of ");
            let total = render_uint(self.rules.num_rounds as u64);
            prompt.append(total.as_str());
            prompt.append(" - ");
            if self.player_turn() == player {
                prompt.append("It's your go! Enter [r]ock, [p]aper or [s]cissors:\n");
            } else {
                prompt.append("Waiting for the other player...\n");
            }
        }
        proof {
            assert(prompt@ =~= spec_render_prompt(self.rules, self.state, player));
        }
        Ok(Some(ConsoleUi { prompt }))
    }
}

} // verus!
