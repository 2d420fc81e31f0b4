//! Persisted rows, as the core reads and writes them.
//!
//! The store itself is external; these are the row shapes the core works
//! with, and the pure reshaping of raw rows into display values. Timestamps
//! travel as seconds since the Unix epoch.

use vstd::prelude::*;
use vstd::string::StringExecFns;
use crate::ids::{GameId, GameProposalId, GroupId, MessageId, RequestId, SessionId, UserId};
use crate::presentation::{MessageMin, SessionKind, SessionMin, UserMin};

verus! {

/// What a session row seats its user at.
#[derive(Debug, Clone, Copy, PartialEq, Eq, Structural)]
pub enum SessionType {
    Game,
    GameProposal,
}

/// A session row: one user's seat at a proposal or a game.
#[derive(Debug, Clone, Copy, PartialEq, Eq, Structural)]
pub struct Session {
    pub id: SessionId,
    pub type_: SessionType,
    pub user_id: UserId,
    pub created_at: i64,
    pub game_id: Option<GameId>,
    pub game_player_index: Option<i32>,
    pub game_proposal_id: Option<GameProposalId>,
}

/// A session row names the foreign row its type demands.
pub open spec fn session_wf(s: Session) -> bool {
    match s.type_ {
        SessionType::Game => s.game_id is Some && s.game_player_index is Some,
        SessionType::GameProposal => s.game_proposal_id is Some,
    }
}

/// A message row.
#[derive(Debug, Clone)]
pub struct Message {
    pub id: MessageId,
    pub to_id: UserId,
    pub from_id: Option<UserId>,
    pub subject: String,
    pub body: String,
    pub was_read: bool,
    pub request_id: Option<RequestId>,
    pub sent_at: i64,
}

/// A game proposal row.
#[derive(Debug, Clone)]
pub struct GameProposal {
    pub id: GameProposalId,
    pub game_type: String,
    pub is_public: bool,
    pub min_players: i32,
    pub max_players: i32,
    pub mod_players: i32,
    pub rules: String,
    pub created_at: i64,
    pub deadline: i64,
}

/// The kinds of standing request between users and groups.
#[derive(Debug, Clone, Copy, PartialEq, Eq, Structural)]
pub enum RequestType {
    Friend,
    JoinGroup,
    GroupInvite,
    GameProposal,
    GameInvite,
}

/// A request row.
#[derive(Debug, Clone, Copy, PartialEq, Eq, Structural)]
pub struct Request {
    pub id: RequestId,
    pub type_: RequestType,
    pub from_user_id: Option<UserId>,
    pub from_group_id: Option<GroupId>,
    pub to_user_id: Option<UserId>,
    pub to_group_id: Option<GroupId>,
    pub game_proposal_id: Option<GameProposalId>,
    pub game_id: Option<GameId>,
    pub player_index: i32,
    pub sent_at: i64,
}

/// The raw session row of a listing query, before its kind is shaped.
#[derive(Debug, Clone, Copy, PartialEq, Eq, Structural)]
pub struct SessionMinRecord {
    pub id: SessionId,
    pub type_: SessionType,
    pub created_at: i64,
    pub game_id: Option<GameId>,
    pub game_proposal_id: Option<GameProposalId>,
}

/// A listing row names the foreign row its type demands.
pub open spec fn session_min_record_wf(r: SessionMinRecord) -> bool {
    match r.type_ {
        SessionType::Game => r.game_id is Some,
        SessionType::GameProposal => r.game_proposal_id is Some,
    }
}

/// The display value a listing row shapes into.
pub open spec fn spec_reify_session(r: SessionMinRecord) -> SessionMin {
    SessionMin {
        id: r.id,
        created_at: r.created_at,
        kind: match r.type_ {
            SessionType::Game => SessionKind::Game(r.game_id->Some_0),
            SessionType::GameProposal => SessionKind::GameProposal(r.game_proposal_id->Some_0),
        },
    }
}

impl SessionMinRecord {
    /// Shapes the raw row into its display value.
    pub fn reify(self) -> (r: SessionMin)
        requires
            session_min_record_wf(self),
        ensures
            r == spec_reify_session(self),
    {
        SessionMin {
            id: self.id,
            created_at: self.created_at,
            kind: match self.type_ {
                SessionType::Game => SessionKind::Game(
                    match self.game_id {
                        Some(g) => g,
                        None => GameId(0),
                    },
                ),
                SessionType::GameProposal => SessionKind::GameProposal(
                    match self.game_proposal_id {
                        Some(p) => p,
                        None => GameProposalId(0),
                    },
                ),
            },
        }
    }
}

/// Shapes a whole listing, in order.
#[verifier::loop_isolation(false)]
pub fn reify_sessions(records: Vec<SessionMinRecord>) -> (r: Vec<SessionMin>)
    requires
        forall|i: int|
            0 <= i < records@.len() ==> session_min_record_wf(#[trigger] records@[i]),
    ensures
        r@.len() == records@.len(),
        forall|i: int|
            0 <= i < records@.len() ==> r@[i] == spec_reify_session(#[trigger] records@[i]),
{
    let mut r: Vec<SessionMin> = Vec::new();
    let n = records.len();
    let mut i: usize = 0;
    while i < n
        invariant
            0 <= i <= n == records@.len(),
            r@.len() == i,
            forall|k: int|
                0 <= k < i ==> r@[k] == spec_reify_session(#[trigger] records@[k]),
        decreases n - i,
    {
        r.push(records[i].reify());
        i = i + 1;
    }
    r
}

/// The raw message row of a listing query, before its sender is resolved.
#[derive(Debug, Clone)]
pub struct MessageMinRecord {
    pub id: MessageId,
    pub sent_at: i64,
    pub subject: String,
    pub from_id: Option<UserId>,
    pub request_id: Option<RequestId>,
}

/// The first user in `users` with the given id.
pub open spec fn spec_user_lookup(users: Seq<UserMin>, id: UserId) -> Option<UserMin>
    decreases users.len(),
{
    if users.len() == 0 {
        None
    } else if users[0].id == id {
        Some(users[0])
    } else {
        spec_user_lookup(users.drop_first(), id)
    }
}

/// When everything before index `j` misses and `j` hits, the lookup
/// answers the user at `j`.
proof fn lemma_lookup_at(users: Seq<UserMin>, id: UserId, j: int)
    requires
        0 <= j < users.len(),
        users[j].id == id,
        forall|k: int| 0 <= k < j ==> (#[trigger] users[k]).id != id,
    ensures
        spec_user_lookup(users, id) == Some(users[j]),
    decreases j,
{
    if j > 0 {
        let rest = users.drop_first();
        assert(forall|k: int| 0 <= k < j - 1 ==> (#[trigger] rest[k]).id != id);
        lemma_lookup_at(rest, id, j - 1);
    }
}

/// When no user carries the id, the lookup answers nothing.
proof fn lemma_lookup_none(users: Seq<UserMin>, id: UserId)
    requires
        forall|k: int| 0 <= k < users.len() ==> (#[trigger] users[k]).id != id,
    ensures
        spec_user_lookup(users, id) is None,
    decreases users.len(),
{
    if users.len() > 0 {
        lemma_lookup_none(users.drop_first(), id);
    }
}

impl MessageMinRecord {
    /// Resolves the sender against the users fetched for the listing and
    /// shapes the row into its display value. Every named sender must be
    /// among the fetched users.
    #[verifier::loop_isolation(false)]
    pub fn reify(self, users: &Vec<UserMin>) -> (r: MessageMin)
        requires
            self.from_id matches Some(u) ==> spec_user_lookup(users@, u) is Some,
        ensures
            r.id == self.id,
            r.sent_at == self.sent_at,
            r.subject == self.subject,
            r.request_id == self.request_id,
            match self.from_id {
                Some(u) => r.from == spec_user_lookup(users@, u),
                None => r.from is None,
            },
    {
        let from = match self.from_id {
            Some(u) => {
                let n = users.len();
                let mut i: usize = 0;
                let mut found: Option<UserMin> = None;
                while i < n
                    invariant
                        0 <= i <= n == users@.len(),
                        found is None ==> forall|k: int|
                            0 <= k < i ==> (#[trigger] users@[k]).id != u,
                        found matches Some(f) ==> spec_user_lookup(users@, u) == Some(f),
                    decreases n - i,
                {
                    if users[i].id == u && found.is_none() {
                        proof {
                            lemma_lookup_at(users@, u, i as int);
                        }
                        found = Some(
                            UserMin { id: users[i].id, username: users[i].username.clone() },
                        );
                    }
                    i = i + 1;
                }
                proof {
                    if found is None {
                        lemma_lookup_none(users@, u);
                    }
                }
                found
            },
            None => None,
        };
        MessageMin {
            id: self.id,
            sent_at: self.sent_at,
            subject: self.subject,
            from,
            request_id: self.request_id,
        }
    }
}

impl GameProposal {
    /// The row a new proposal is created with: private visibility, 2 to 8
    /// players, no rules, and a deadline five minutes (300 seconds) after
    /// creation.
    pub fn create_default(id: GameProposalId, game_type: String, now: i64) -> (r: GameProposal)
        requires
            now <= i64::MAX - 300,
        ensures
            r.id == id,
            r.game_type == game_type,
            !r.is_public,
            r.min_players == 2,
            r.max_players == 8,
            r.mod_players == 1,
            r.rules@ == "null"@,
            r.created_at == now,
            r.deadline == now + 300,
    {
        GameProposal {
            id,
            game_type,
            is_public: false,
            min_players: 2,
            max_players: 8,
            mod_players: 1,
            rules: String::from_str("null"),
            created_at: now,
            deadline: now + 300,
        }
    }
}

impl Session {
    /// The seat row created beside a new proposal: the proposing user's
    /// proposal-type session.
    pub fn new_proposal_seat(
        id: SessionId,
        user_id: UserId,
        proposal_id: GameProposalId,
        now: i64,
    ) -> (r: Session)
        ensures
            r.id == id,
            r.type_ == SessionType::GameProposal,
            r.user_id == user_id,
            r.created_at == now,
            r.game_id is None,
            r.game_player_index is None,
            r.game_proposal_id == Some(proposal_id),
            session_wf(r),
    {
        Session {
            id,
            type_: SessionType::GameProposal,
            user_id,
            created_at: now,
            game_id: None,
            game_player_index: None,
            game_proposal_id: Some(proposal_id),
        }
    }
}

} // verus!
