//! The proposal session actor's decisions.
//!
//! Each pending proposal has one rendezvous room. Users enter, lines are
//! echoed to everyone, and a member whose connection closes — or is too
//! slow to take a broadcast within its 200 ms send window — leaves with a
//! `UserExited` to the rest. The runtime performs the sends and the idle
//! timer; every decision about the member list is made here.

use vstd::prelude::*;
use vstd::string::StringExecFns;
use crate::connection::{SessionMember, SessionToConnectionMsg};
use crate::ids::{id_repr, GameProposalId, UserId};
use crate::presentation::{PresentationKind, SessionEvent, TerminalSessionEvent};

verus! {

/// One member of the room: who, and over which kind of presentation.
#[derive(Debug, Clone, Copy, PartialEq, Eq, Structural)]
pub struct ProposalConnection {
    pub user_id: UserId,
    pub kind: PresentationKind,
}

/// The room of one pending proposal.
#[derive(Debug)]
pub struct ProposalSessionState {
    pub proposal_id: GameProposalId,
    pub connections: Vec<ProposalConnection>,
}

/// The members' ids, in joining order.
pub open spec fn member_ids(s: Seq<ProposalConnection>) -> Seq<UserId> {
    s.map_values(|c: ProposalConnection| c.user_id)
}

/// The presentation kind of a member, if present.
pub open spec fn member_kind(s: Seq<ProposalConnection>, u: UserId) -> Option<PresentationKind> {
    if exists|i: int| 0 <= i < s.len() && (#[trigger] s[i]).user_id == u {
        Some(s[choose|i: int| 0 <= i < s.len() && (#[trigger] s[i]).user_id == u].kind)
    } else {
        None
    }
}

/// At most one connection per user.
pub open spec fn members_wf(s: Seq<ProposalConnection>) -> bool {
    forall|i: int, j: int|
        0 <= i < j < s.len() ==> (#[trigger] s[i]).user_id != (#[trigger] s[j]).user_id
}

/// Copies the member ids out, in order.
#[verifier::loop_isolation(false)]
fn ids_of(s: &Vec<ProposalConnection>) -> (r: Vec<UserId>)
    ensures
        r@ == member_ids(s@),
{
    let mut r: Vec<UserId> = Vec::new();
    let n = s.len();
    let mut i: usize = 0;
    while i < n
        invariant
            0 <= i <= n == s@.len(),
            r@ =~= member_ids(s@.subrange(0, i as int)),
        decreases n - i,
    {
        r.push(s[i].user_id);
        proof {
            assert(member_ids(s@.subrange(0, i as int + 1)) =~= member_ids(
                s@.subrange(0, i as int),
            ).push(s@[i as int].user_id));
        }
        i = i + 1;
    }
    proof {
        assert(s@.subrange(0, n as int) =~= s@);
    }
    r
}

/// Removing index `at` keeps well-formedness and every other member.
proof fn lemma_member_removed(s: Seq<ProposalConnection>, post: Seq<ProposalConnection>, at: int)
    requires
        0 <= at < s.len(),
        post == s.remove(at),
        members_wf(s),
    ensures
        members_wf(post),
        member_kind(post, s[at].user_id) is None,
        forall|u: UserId|
            u != s[at].user_id ==> member_kind(post, u) == member_kind(s, u),
{
    let victim = s[at].user_id;
    assert(members_wf(post)) by {
        assert forall|i: int, j: int| 0 <= i < j < post.len() implies (
        #[trigger] post[i]).user_id != (#[trigger] post[j]).user_id by {
            let pi = if i < at { i } else { i + 1 };
            let pj = if j < at { j } else { j + 1 };
            assert(post[i] == s[pi] && post[j] == s[pj]);
        }
    }
    assert forall|k: int| 0 <= k < post.len() implies (#[trigger] post[k]).user_id != victim by {
        if k < at {
            assert(post[k] == s[k]);
        } else {
            assert(post[k] == s[k + 1]);
        }
    }
    assert(member_kind(post, victim) is None);
    assert forall|u: UserId| u != victim implies member_kind(post, u) == member_kind(s, u) by {
        match member_kind(s, u) {
            Some(_) => {
                let i = choose|i: int| 0 <= i < s.len() && (#[trigger] s[i]).user_id == u;
                let pi = if i < at { i } else { i - 1 };
                assert(post[pi] == s[i]);
                assert(exists|k: int| 0 <= k < post.len() && (#[trigger] post[k]).user_id == u);
                let w = choose|k: int| 0 <= k < post.len() && (#[trigger] post[k]).user_id == u;
                assert(w == pi);
            },
            None => {
                assert forall|k: int| 0 <= k < post.len() implies (#[trigger] post[k]).user_id
                    != u by {
                    if k < at {
                        assert(post[k] == s[k]);
                    } else {
                        assert(post[k] == s[k + 1]);
                    }
                }
            },
        }
    }
}

impl ProposalSessionState {
    /// A fresh, empty room.
    pub fn new(proposal_id: GameProposalId) -> (r: ProposalSessionState)
        ensures
            r.proposal_id == proposal_id,
            r.connections@.len() == 0,
            members_wf(r.connections@),
    {
        ProposalSessionState { proposal_id, connections: Vec::new() }
    }

    /// Whether the room is empty; an empty room arms the idle timer whose
    /// expiry ends the actor.
    pub fn is_idle(&self) -> (r: bool)
        ensures
            r == (self.connections@.len() == 0),
    {
        self.connections.len() == 0
    }

    /// The recipients of a broadcast: every current member, once each, in
    /// joining order.
    pub fn recipients(&self) -> (r: Vec<UserId>)
        ensures
            r@ == member_ids(self.connections@),
    {
        ids_of(&self.connections)
    }

    /// Admits a user: the `UserEntered` broadcast goes to the members
    /// present before, then the user is inserted (re-entering replaces the
    /// old connection).
    #[verifier::loop_isolation(false)]
    pub fn handle_enter(&mut self, user_id: UserId, kind: PresentationKind) -> (r: (
        SessionToConnectionMsg,
        Vec<UserId>,
    ))
        requires
            members_wf(old(self).connections@),
        ensures
            members_wf(final(self).connections@),
            final(self).proposal_id == old(self).proposal_id,
            r.0 == (SessionToConnectionMsg::UserEntered(
                SessionMember { user_id, player_index: None },
            )),
            r.1@ == member_ids(old(self).connections@),
            member_kind(final(self).connections@, user_id) == Some(kind),
            forall|u: UserId|
                u != user_id ==> member_kind(final(self).connections@, u) == member_kind(
                    old(self).connections@,
                    u,
                ),
    {
        let recipients = ids_of(&self.connections);
        self.remove_member(user_id);
        let ghost mid = self.connections@;
        self.connections.push(ProposalConnection { user_id, kind });
        proof {
            let s = self.connections@;
            assert(members_wf(s)) by {
                assert forall|i: int, j: int| 0 <= i < j < s.len() implies (
                #[trigger] s[i]).user_id != (#[trigger] s[j]).user_id by {
                    if j < s.len() - 1 {
                        assert(s[i] == mid[i] && s[j] == mid[j]);
                    } else {
                        assert(s[i] == mid[i]);
                        assert(member_kind(mid, user_id) is None ==> mid[i].user_id != user_id);
                    }
                }
            }
            assert(s[s.len() - 1].user_id == user_id);
            assert(member_kind(s, user_id) == Some(kind)) by {
                let w = choose|k: int| 0 <= k < s.len() && (#[trigger] s[k]).user_id == user_id;
                assert(s[s.len() - 1].user_id == user_id);
                assert(w == s.len() - 1);
            }
            assert forall|u: UserId| u != user_id implies member_kind(s, u) == member_kind(
                mid,
                u,
            ) by {
                match member_kind(mid, u) {
                    Some(_) => {
                        let i = choose|i: int|
                            0 <= i < mid.len() && (#[trigger] mid[i]).user_id == u;
                        assert(s[i] == mid[i]);
                        let w = choose|k: int|
                            0 <= k < s.len() && (#[trigger] s[k]).user_id == u;
                        assert(w == i);
                    },
                    None => {
                        assert forall|k: int| 0 <= k < s.len() implies (
                        #[trigger] s[k]).user_id != u by {
                            if k < s.len() - 1 {
                                assert(s[k] == mid[k]);
                            }
                        }
                    },
                }
            }
        }
        (
            SessionToConnectionMsg::UserEntered(SessionMember { user_id, player_index: None }),
            recipients,
        )
    }

    /// Drops a member's connection if present; the rest are untouched.
    #[verifier::loop_isolation(false)]
    fn remove_member(&mut self, user_id: UserId)
        requires
            members_wf(old(self).connections@),
        ensures
            members_wf(final(self).connections@),
            final(self).proposal_id == old(self).proposal_id,
            member_kind(final(self).connections@, user_id) is None,
            forall|u: UserId|
                u != user_id ==> member_kind(final(self).connections@, u) == member_kind(
                    old(self).connections@,
                    u,
                ),
    {
        let n = self.connections.len();
        let mut i: usize = 0;
        while i < n
            invariant
                0 <= i <= n == self.connections@.len(),
                self.proposal_id == old(self).proposal_id,
                self.connections@ == old(self).connections@,
                forall|k: int|
                    0 <= k < i ==> (#[trigger] self.connections@[k]).user_id != user_id,
            decreases n - i,
        {
            if self.connections[i].user_id == user_id {
                self.connections.remove(i);
                proof {
                    lemma_member_removed(old(self).connections@, self.connections@, i as int);
                }
                return ;
            }
            i = i + 1;
        }
        proof {
            assert(member_kind(self.connections@, user_id) is None);
        }
    }

    /// A member's terminal line: echoed to every member (the speaker too)
    /// as `u<id>: <line>`.
    pub fn handle_line(&mut self, user_id: UserId, line: &str) -> (r: (
        SessionToConnectionMsg,
        Vec<UserId>,
    ))
        requires
            members_wf(old(self).connections@),
        ensures
            final(self).connections@ == old(self).connections@,
            final(self).proposal_id == old(self).proposal_id,
            r.0 matches SessionToConnectionMsg::Event(SessionEvent::Terminal(
                TerminalSessionEvent::Line(l),
            )) && l@ == id_repr('u', user_id.0 as int) + ": "@ + line@,
            r.1@ == member_ids(old(self).connections@),
    {
        let recipients = ids_of(&self.connections);
        let mut text = user_id.format();
        text.append(": ");
        text.append(line);
        (
            SessionToConnectionMsg::Event(
                SessionEvent::Terminal(TerminalSessionEvent::Line(text)),
            ),
            recipients,
        )
    }

    /// A member disconnected: it leaves the room, and the remaining
    /// members hear `UserExited`.
    pub fn disconnect_user(&mut self, user_id: UserId) -> (r: (
        SessionToConnectionMsg,
        Vec<UserId>,
    ))
        requires
            members_wf(old(self).connections@),
        ensures
            members_wf(final(self).connections@),
            final(self).proposal_id == old(self).proposal_id,
            member_kind(final(self).connections@, user_id) is None,
            forall|u: UserId|
                u != user_id ==> member_kind(final(self).connections@, u) == member_kind(
                    old(self).connections@,
                    u,
                ),
            r.0 == (SessionToConnectionMsg::UserExited(
                SessionMember { user_id, player_index: None },
            )),
            r.1@ == member_ids(final(self).connections@),
    {
        self.remove_member(user_id);
        let recipients = ids_of(&self.connections);
        (
            SessionToConnectionMsg::UserExited(SessionMember { user_id, player_index: None }),
            recipients,
        )
    }

    /// A member was too slow to take a broadcast within its send window:
    /// evicted exactly like a disconnect, without stalling anyone else.
    pub fn timeout_user(&mut self, user_id: UserId) -> (r: (
        SessionToConnectionMsg,
        Vec<UserId>,
    ))
        requires
            members_wf(old(self).connections@),
        ensures
            members_wf(final(self).connections@),
            final(self).proposal_id == old(self).proposal_id,
            member_kind(final(self).connections@, user_id) is None,
            forall|u: UserId|
                u != user_id ==> member_kind(final(self).connections@, u) == member_kind(
                    old(self).connections@,
                    u,
                ),
            r.0 == (SessionToConnectionMsg::UserExited(
                SessionMember { user_id, player_index: None },
            )),
            r.1@ == member_ids(final(self).connections@),
    {
        self.disconnect_user(user_id)
    }
}

/// The broadcast plan touches each of the K members exactly once, so a
/// per-recipient send window bounds a whole broadcast by K windows: no
/// member can stall another's delivery.
pub proof fn lemma_broadcast_each_member_once(s: Seq<ProposalConnection>)
    requires
        members_wf(s),
    ensures
        member_ids(s).len() == s.len(),
        forall|i: int, j: int|
            0 <= i < j < member_ids(s).len() ==> member_ids(s)[i] != member_ids(s)[j],
{
    assert forall|i: int, j: int| 0 <= i < j < member_ids(s).len() implies member_ids(s)[i]
        != member_ids(s)[j] by {
        assert(member_ids(s)[i] == s[i].user_id);
        assert(member_ids(s)[j] == s[j].user_id);
    }
}

} // verus!
