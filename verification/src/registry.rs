//! The shared registries.
//!
//! Two concurrent indexes hold the only shared state of the server: the
//! connection registry (user id to that user's open connections) and the
//! session registry of each manager (session target to its one live actor).
//! Both are modelled here as verified stores over plain values; the runtime
//! guards each with its own lock and calls in from outside.

use vstd::prelude::*;

verus! {

/// One user's bucket: the handles of that user's open connection actors.
pub struct UserBucket {
    pub user: i64,
    pub conns: Vec<u64>,
}

/// The index from user id to open connections. `next_handle` names the
/// connection actor the next `open` will spawn.
pub struct ConnectionRegistry {
    pub buckets: Vec<UserBucket>,
    pub next_handle: u64,
}

/// The index of the first bucket for `user`, if any.
pub open spec fn bucket_index(s: Seq<UserBucket>, user: i64) -> Option<int> {
    if exists|i: int| 0 <= i < s.len() && (#[trigger] s[i]).user == user {
        Some(choose|i: int| 0 <= i < s.len() && (#[trigger] s[i]).user == user)
    } else {
        None
    }
}

/// The connections registered for `user`: its bucket's, or none.
pub open spec fn conns_of(s: Seq<UserBucket>, user: i64) -> Seq<u64> {
    match bucket_index(s, user) {
        Some(i) => s[i].conns@,
        None => Seq::empty(),
    }
}

/// At most one bucket per user.
pub open spec fn buckets_wf(s: Seq<UserBucket>) -> bool {
    forall|i: int, j: int|
        0 <= i < j < s.len() ==> (#[trigger] s[i]).user != (#[trigger] s[j]).user
}

impl ConnectionRegistry {
    /// An empty registry.
    pub fn new() -> (r: ConnectionRegistry)
        ensures
            r.buckets@.len() == 0,
            r.next_handle == 0,
            buckets_wf(r.buckets@),
    {
        ConnectionRegistry { buckets: Vec::new(), next_handle: 0 }
    }

    /// Registers one new connection for `user` and returns the handle of
    /// the one actor to spawn for it: exactly one actor per `open` call.
    /// Every other user's bucket is untouched.
    #[verifier::loop_isolation(false)]
    pub fn open(&mut self, user: i64) -> (handle: u64)
        requires
            buckets_wf(old(self).buckets@),
            old(self).next_handle < u64::MAX,
        ensures
            buckets_wf(final(self).buckets@),
            handle == old(self).next_handle,
            final(self).next_handle == old(self).next_handle + 1,
            conns_of(final(self).buckets@, user) == conns_of(old(self).buckets@, user).push(
                handle,
            ),
            forall|u: i64|
                u != user ==> conns_of(final(self).buckets@, u) == conns_of(
                    old(self).buckets@,
                    u,
                ),
    {
        let handle = self.next_handle;
        self.next_handle = self.next_handle + 1;
        let n = self.buckets.len();
        let mut i: usize = 0;
        while i < n
            invariant
                0 <= i <= n == self.buckets@.len(),
                self.buckets@ == old(self).buckets@,
                self.next_handle == old(self).next_handle + 1,
                forall|k: int| 0 <= k < i ==> (#[trigger] self.buckets@[k]).user != user,
            decreases n - i,
        {
            if self.buckets[i].user == user {
                proof {
                    assert(bucket_index(self.buckets@, user) == Some(i as int));
                }
                let mut bucket = self.buckets.remove(i);
                bucket.conns.push(handle);
                self.buckets.push(bucket);
                proof {
                    lemma_move_to_back(old(self).buckets@, self.buckets@, i as int);
                }
                return handle;
            }
            i = i + 1;
        }
        proof {
            assert(bucket_index(self.buckets@, user) is None);
        }
        let mut conns: Vec<u64> = Vec::new();
        conns.push(handle);
        self.buckets.push(UserBucket { user, conns });
        proof {
            let s = self.buckets@;
            assert(buckets_wf(s)) by {
                assert forall|a: int, b: int| 0 <= a < b < s.len() implies (
                #[trigger] s[a]).user != (#[trigger] s[b]).user by {
                    if b < s.len() - 1 {
                        assert(s[a] == old(self).buckets@[a] && s[b] == old(self).buckets@[b]);
                    } else {
                        assert(s[a] == old(self).buckets@[a]);
                        assert(s[a].user != user);
                    }
                }
            }
            assert(s[s.len() - 1].user == user);
            assert(bucket_index(s, user) == Some(s.len() - 1));
            assert(conns_of(old(self).buckets@, user) =~= Seq::<u64>::empty());
            assert(conns_of(s, user) =~= conns_of(old(self).buckets@, user).push(handle));
            assert forall|u: i64| u != user implies conns_of(s, u) == conns_of(
                old(self).buckets@,
                u,
            ) by {
                lemma_push_other_user(old(self).buckets@, s, u);
            }
        }
        handle
    }

    /// Drops the connections named in `closed` from `user`'s bucket, and
    /// the bucket itself when nothing remains: after a user's last actor
    /// exits, a `gc` with its handle removes the user entirely. Every
    /// other user's bucket is untouched.
    #[verifier::loop_isolation(false)]
    pub fn gc(&mut self, user: i64, closed: &Vec<u64>)
        requires
            buckets_wf(old(self).buckets@),
        ensures
            buckets_wf(final(self).buckets@),
            conns_of(final(self).buckets@, user) == conns_of(old(self).buckets@, user).filter(
                |h: u64| !closed@.contains(h),
            ),
            forall|u: i64|
                u != user ==> conns_of(final(self).buckets@, u) == conns_of(
                    old(self).buckets@,
                    u,
                ),
    {
        let n = self.buckets.len();
        let mut i: usize = 0;
        while i < n
            invariant
                0 <= i <= n == self.buckets@.len(),
                self.buckets@ == old(self).buckets@,
                forall|k: int| 0 <= k < i ==> (#[trigger] self.buckets@[k]).user != user,
            decreases n - i,
        {
            if self.buckets[i].user == user {
                proof {
                    assert(bucket_index(self.buckets@, user) == Some(i as int));
                }
                let kept = retain_open(&self.buckets[i].conns, closed);
                if kept.len() == 0 {
                    self.buckets.remove(i);
                    proof {
                        let s = self.buckets@;
                        assert forall|u: i64| u != user implies conns_of(s, u) == conns_of(
                            old(self).buckets@,
                            u,
                        ) by {
                            lemma_remove_other_user(old(self).buckets@, s, i as int, u);
                        }
                        assert(bucket_index(s, user) is None);
                        assert(conns_of(s, user) =~= conns_of(old(self).buckets@, user).filter(
                            |h: u64| !closed@.contains(h),
                        ));
                    }
                } else {
                    let mut bucket = self.buckets.remove(i);
                    bucket.conns = kept;
                    self.buckets.push(bucket);
                    proof {
                        lemma_move_to_back(old(self).buckets@, self.buckets@, i as int);
                    }
                }
                return ;
            }
            i = i + 1;
        }
        proof {
            assert(bucket_index(self.buckets@, user) is None);
            assert(conns_of(self.buckets@, user) =~= conns_of(old(self).buckets@, user).filter(
                |h: u64| !closed@.contains(h),
            ));
        }
    }

    /// The handles to send to for one user, in registration order.
    #[verifier::loop_isolation(false)]
    pub fn recipients(&self, user: i64) -> (r: Vec<u64>)
        requires
            buckets_wf(self.buckets@),
        ensures
            r@ == conns_of(self.buckets@, user),
    {
        let n = self.buckets.len();
        let mut i: usize = 0;
        while i < n
            invariant
                0 <= i <= n == self.buckets@.len(),
                forall|k: int| 0 <= k < i ==> (#[trigger] self.buckets@[k]).user != user,
            decreases n - i,
        {
            if self.buckets[i].user == user {
                proof {
                    assert(bucket_index(self.buckets@, user) == Some(i as int));
                }
                return clone_handles(&self.buckets[i].conns);
            }
            i = i + 1;
        }
        proof {
            assert(bucket_index(self.buckets@, user) is None);
        }
        Vec::new()
    }
}

/// Copies a handle list.
#[verifier::loop_isolation(false)]
fn clone_handles(v: &Vec<u64>) -> (r: Vec<u64>)
    ensures
        r@ == v@,
{
    let mut r: Vec<u64> = Vec::new();
    let n = v.len();
    let mut i: usize = 0;
    while i < n
        invariant
            0 <= i <= n == v@.len(),
            r@ == v@.subrange(0, i as int),
        decreases n - i,
    {
        r.push(v[i]);
        proof {
            assert(v@.subrange(0, i as int + 1) =~= v@.subrange(0, i as int).push(v@[i as int]));
        }
        i = i + 1;
    }
    proof {
        assert(v@.subrange(0, n as int) =~= v@);
    }
    r
}

/// The handles of `v` that are not listed in `closed`, in order.
#[verifier::loop_isolation(false)]
fn retain_open(v: &Vec<u64>, closed: &Vec<u64>) -> (r: Vec<u64>)
    ensures
        r@ == v@.filter(|h: u64| !closed@.contains(h)),
{
    let mut r: Vec<u64> = Vec::new();
    let n = v.len();
    let mut i: usize = 0;
    proof {
        reveal_with_fuel(Seq::<u64>::filter, 2);
        assert(v@.subrange(0, 0).filter(|h: u64| !closed@.contains(h)) =~= Seq::<u64>::empty());
    }
    while i < n
        invariant
            0 <= i <= n == v@.len(),
            r@ == v@.subrange(0, i as int).filter(|h: u64| !closed@.contains(h)),
        decreases n - i,
    {
        let h = v[i];
        let mut found = false;
        let m = closed.len();
        let mut j: usize = 0;
        while j < m
            invariant
                0 <= j <= m == closed@.len(),
                found == exists|k: int| 0 <= k < j && closed@[k] == h,
            decreases m - j,
        {
            if closed[j] == h {
                found = true;
            }
            j = j + 1;
        }
        proof {
            assert(found == closed@.contains(h));
            let pre = v@.subrange(0, i as int);
            let post = v@.subrange(0, i as int + 1);
            assert(post.drop_last() =~= pre);
            assert(post.last() == h);
            reveal_with_fuel(Seq::<u64>::filter, 2);
        }
        if !found {
            r.push(h);
        }
        proof {
            assert(v@.subrange(0, i as int + 1).filter(|x: u64| !closed@.contains(x)) =~= (
            if closed@.contains(h) {
                v@.subrange(0, i as int).filter(|x: u64| !closed@.contains(x))
            } else {
                v@.subrange(0, i as int).filter(|x: u64| !closed@.contains(x)).push(h)
            }));
        }
        i = i + 1;
    }
    proof {
        assert(v@.subrange(0, n as int) =~= v@);
    }
    r
}

/// Taking one bucket out and pushing a changed copy (same user) to the
/// back keeps the registry well formed, binds the user to the new copy,
/// and leaves every other user's connections as they were.
proof fn lemma_move_to_back(pre: Seq<UserBucket>, post: Seq<UserBucket>, at: int)
    requires
        0 <= at < pre.len(),
        post.len() == pre.len(),
        post == pre.remove(at).push(post.last()),
        post.last().user == pre[at].user,
        buckets_wf(pre),
    ensures
        buckets_wf(post),
        conns_of(post, pre[at].user) == post.last().conns@,
        forall|u: i64|
            u != pre[at].user ==> conns_of(post, u) == conns_of(pre, u),
{
    let user = pre[at].user;
    let mid = pre.remove(at);
    assert forall|k: int| 0 <= k < mid.len() implies (#[trigger] mid[k]).user != user by {
        if k < at {
            assert(mid[k] == pre[k]);
        } else {
            assert(mid[k] == pre[k + 1]);
        }
    }
    assert(buckets_wf(mid)) by {
        assert forall|i: int, j: int| 0 <= i < j < mid.len() implies (#[trigger] mid[i]).user != (
        #[trigger] mid[j]).user by {
            let pi = if i < at { i } else { i + 1 };
            let pj = if j < at { j } else { j + 1 };
            assert(mid[i] == pre[pi]);
            assert(mid[j] == pre[pj]);
        }
    }
    assert(buckets_wf(post)) by {
        assert forall|i: int, j: int| 0 <= i < j < post.len() implies (#[trigger] post[i]).user
            != (#[trigger] post[j]).user by {
            if j < post.len() - 1 {
                assert(post[i] == mid[i] && post[j] == mid[j]);
            } else {
                assert(post[i] == mid[i]);
            }
        }
    }
    assert(post[post.len() - 1].user == user);
    assert(bucket_index(post, user) == Some(post.len() - 1));
    assert forall|u: i64| u != user implies conns_of(post, u) == conns_of(pre, u) by {
        match bucket_index(pre, u) {
            Some(i) => {
                assert(pre[i].user == u);
                let mi = if i < at { i } else { i - 1 };
                assert(mid[mi] == pre[i]);
                assert(post[mi] == pre[i]);
                assert(bucket_index(post, u) is Some);
                let w = choose|w: int| 0 <= w < post.len() && (#[trigger] post[w]).user == u;
                assert(post[w].user == u);
                assert(w == mi);
            },
            None => {
                assert forall|k: int| 0 <= k < post.len() implies (#[trigger] post[k]).user != u
                by {
                    if k < post.len() - 1 {
                        let pk = if k < at { k } else { k + 1 };
                        assert(post[k] == pre[pk]);
                    }
                }
                assert(bucket_index(post, u) is None);
            },
        }
    }
}

/// Pushing a new user's bucket leaves every other user's connections as
/// they were.
proof fn lemma_push_other_user(pre: Seq<UserBucket>, post: Seq<UserBucket>, u: i64)
    requires
        post.len() == pre.len() + 1,
        forall|k: int| 0 <= k < pre.len() ==> post[k] == pre[k],
        post[pre.len() as int].user != u,
        buckets_wf(pre),
        buckets_wf(post),
    ensures
        conns_of(post, u) == conns_of(pre, u),
{
    match bucket_index(pre, u) {
        Some(i) => {
            assert(pre[i].user == u);
            assert(post[i].user == u);
            assert(bucket_index(post, u) == Some(i));
        },
        None => {
            assert forall|k: int| 0 <= k < post.len() implies (#[trigger] post[k]).user != u by {
                if k < pre.len() {
                    assert(pre[k].user != u);
                }
            }
            assert(bucket_index(post, u) is None);
        },
    }
}

/// Removing one bucket leaves every other user's connections as they were.
proof fn lemma_remove_other_user(pre: Seq<UserBucket>, post: Seq<UserBucket>, at: int, u: i64)
    requires
        0 <= at < pre.len(),
        post == pre.remove(at),
        pre[at].user != u,
        buckets_wf(pre),
    ensures
        conns_of(post, u) == conns_of(pre, u),
{
    match bucket_index(pre, u) {
        Some(i) => {
            assert(pre[i].user == u);
            if i < at {
                assert(post[i].user == u);
                assert(bucket_index(post, u) == Some(i));
                assert(post[i] == pre[i]);
            } else {
                assert(i != at);
                assert(post[i - 1] == pre[i]);
                assert(bucket_index(post, u) == Some(i - 1));
            }
        },
        None => {
            assert forall|k: int| 0 <= k < post.len() implies (#[trigger] post[k]).user != u by {
                if k < at {
                    assert(post[k] == pre[k]);
                } else {
                    assert(post[k] == pre[k + 1]);
                }
            }
            assert(bucket_index(post, u) is None);
        },
    }
}

/// One live session actor per target.
pub struct SessionEntry {
    pub target: i64,
    pub actor: u64,
}

/// The index from session target (proposal id or game id) to its one live
/// actor. `next_actor` names the actor the next miss will spawn.
pub struct SessionRegistry {
    pub entries: Vec<SessionEntry>,
    pub next_actor: u64,
}

/// The actor registered for `target`, if any.
pub open spec fn actor_of(s: Seq<SessionEntry>, target: i64) -> Option<u64> {
    if exists|i: int| 0 <= i < s.len() && (#[trigger] s[i]).target == target {
        Some(s[choose|i: int| 0 <= i < s.len() && (#[trigger] s[i]).target == target].actor)
    } else {
        None
    }
}

/// At most one entry per target.
pub open spec fn entries_wf(s: Seq<SessionEntry>) -> bool {
    forall|i: int, j: int|
        0 <= i < j < s.len() ==> (#[trigger] s[i]).target != (#[trigger] s[j]).target
}

impl SessionRegistry {
    /// An empty registry.
    pub fn new() -> (r: SessionRegistry)
        ensures
            r.entries@.len() == 0,
            r.next_actor == 0,
            entries_wf(r.entries@),
    {
        SessionRegistry { entries: Vec::new(), next_actor: 0 }
    }

    /// The compare-and-insert rendezvous: returns the target's live actor,
    /// creating it first — `created` says so — only when none exists.
    /// Every entry call for a target therefore lands on the same actor.
    #[verifier::loop_isolation(false)]
    pub fn enter(&mut self, target: i64) -> (r: (u64, bool))
        requires
            entries_wf(old(self).entries@),
            old(self).next_actor < u64::MAX,
        ensures
            entries_wf(final(self).entries@),
            actor_of(final(self).entries@, target) == Some(r.0),
            forall|t: i64|
                t != target ==> actor_of(final(self).entries@, t) == actor_of(
                    old(self).entries@,
                    t,
                ),
            match actor_of(old(self).entries@, target) {
                Some(a) => r == (a, false) && final(self).entries@ == old(self).entries@
                    && final(self).next_actor == old(self).next_actor,
                None => r == (old(self).next_actor, true) && final(self).next_actor == old(
                    self,
                ).next_actor + 1 && final(self).entries@ == old(self).entries@.push(
                    SessionEntry { target, actor: r.0 },
                ),
            },
    {
        let n = self.entries.len();
        let mut i: usize = 0;
        while i < n
            invariant
                0 <= i <= n == self.entries@.len(),
                forall|k: int| 0 <= k < i ==> (#[trigger] self.entries@[k]).target != target,
            decreases n - i,
        {
            if self.entries[i].target == target {
                proof {
                    assert(0 <= i < self.entries@.len() && self.entries@[i as int].target
                        == target);
                    lemma_actor_at(self.entries@, i as int);
                }
                return (self.entries[i].actor, false);
            }
            i = i + 1;
        }
        proof {
            assert(actor_of(self.entries@, target) is None);
        }
        let actor = self.next_actor;
        self.next_actor = self.next_actor + 1;
        self.entries.push(SessionEntry { target, actor });
        proof {
            let s = self.entries@;
            assert(s[s.len() - 1].target == target);
            lemma_actor_at(s, s.len() - 1);
            assert forall|t: i64| t != target implies actor_of(s, t) == actor_of(
                old(self).entries@,
                t,
            ) by {
                lemma_entry_push_other(old(self).entries@, s, t);
            }
        }
        (actor, true)
    }

    /// Removes a target's entry; the actor calls this as it exits.
    #[verifier::loop_isolation(false)]
    pub fn remove(&mut self, target: i64)
        requires
            entries_wf(old(self).entries@),
        ensures
            entries_wf(final(self).entries@),
            actor_of(final(self).entries@, target) is None,
            forall|t: i64|
                t != target ==> actor_of(final(self).entries@, t) == actor_of(
                    old(self).entries@,
                    t,
                ),
    {
        let n = self.entries.len();
        let mut i: usize = 0;
        while i < n
            invariant
                0 <= i <= n == self.entries@.len(),
                self.entries@ == old(self).entries@,
                forall|k: int| 0 <= k < i ==> (#[trigger] self.entries@[k]).target != target,
            decreases n - i,
        {
            if self.entries[i].target == target {
                self.entries.remove(i);
                proof {
                    let pre = old(self).entries@;
                    let post = self.entries@;
                    assert forall|t: i64| t != target implies actor_of(post, t) == actor_of(
                        pre,
                        t,
                    ) by {
                        lemma_entry_remove_other(pre, post, i as int, t);
                    }
                    assert forall|k: int| 0 <= k < post.len() implies (#[trigger] post[k]).target
                        != target by {
                        if k < i {
                            assert(post[k] == pre[k]);
                        } else {
                            assert(post[k] == pre[k + 1]);
                        }
                    }
                    assert(actor_of(post, target) is None);
                }
                return ;
            }
            i = i + 1;
        }
        proof {
            assert(actor_of(self.entries@, target) is None);
        }
    }
}

/// When entry `i` holds the target, the registry's answer is its actor.
proof fn lemma_actor_at(s: Seq<SessionEntry>, i: int)
    requires
        0 <= i < s.len(),
        entries_wf(s),
    ensures
        actor_of(s, s[i].target) == Some(s[i].actor),
{
    let t = s[i].target;
    assert(exists|k: int| 0 <= k < s.len() && (#[trigger] s[k]).target == t);
    let k = choose|k: int| 0 <= k < s.len() && (#[trigger] s[k]).target == t;
    assert(k == i);
}

/// Pushing a new target's entry leaves every other target's answer as it
/// was.
proof fn lemma_entry_push_other(pre: Seq<SessionEntry>, post: Seq<SessionEntry>, t: i64)
    requires
        post.len() == pre.len() + 1,
        forall|k: int| 0 <= k < pre.len() ==> post[k] == pre[k],
        post[pre.len() as int].target != t,
        entries_wf(pre),
        entries_wf(post),
    ensures
        actor_of(post, t) == actor_of(pre, t),
{
    match actor_of(pre, t) {
        Some(_) => {
            let i = choose|i: int| 0 <= i < pre.len() && (#[trigger] pre[i]).target == t;
            assert(post[i].target == t);
            lemma_actor_at(post, i);
            lemma_actor_at(pre, i);
        },
        None => {
            assert forall|k: int| 0 <= k < post.len() implies (#[trigger] post[k]).target != t by {
                if k < pre.len() {
                    assert(pre[k].target != t);
                }
            }
            assert(actor_of(post, t) is None);
        },
    }
}

/// Removing one entry leaves every other target's answer as it was.
proof fn lemma_entry_remove_other(pre: Seq<SessionEntry>, post: Seq<SessionEntry>, at: int, t: i64)
    requires
        0 <= at < pre.len(),
        post == pre.remove(at),
        pre[at].target != t,
        entries_wf(pre),
    ensures
        actor_of(post, t) == actor_of(pre, t),
{
    assert(entries_wf(post)) by {
        assert forall|i: int, j: int| 0 <= i < j < post.len() implies (#[trigger] post[i]).target
            != (#[trigger] post[j]).target by {
            let pi = if i < at { i } else { i + 1 };
            let pj = if j < at { j } else { j + 1 };
            assert(post[i] == pre[pi]);
            assert(post[j] == pre[pj]);
        }
    }
    match actor_of(pre, t) {
        Some(_) => {
            let i = choose|i: int| 0 <= i < pre.len() && (#[trigger] pre[i]).target == t;
            lemma_actor_at(pre, i);
            if i < at {
                assert(post[i] == pre[i]);
                lemma_actor_at(post, i);
            } else {
                assert(post[i - 1] == pre[i]);
                lemma_actor_at(post, i - 1);
            }
        },
        None => {
            assert forall|k: int| 0 <= k < post.len() implies (#[trigger] post[k]).target != t by {
                if k < at {
                    assert(post[k] == pre[k]);
                } else {
                    assert(post[k] == pre[k + 1]);
                }
            }
            assert(actor_of(post, t) is None);
        },
    }
}

/// The rendezvous step `enter` takes, as a function of the registry's
/// state: the entries afterwards, the next fresh actor, the actor answered,
/// and whether it was created.
pub open spec fn seq_enter(s: Seq<SessionEntry>, next: u64, t: i64) -> (
    Seq<SessionEntry>,
    u64,
    u64,
    bool,
) {
    match actor_of(s, t) {
        Some(a) => (s, next, a, false),
        None => (s.push(SessionEntry { target: t, actor: next }), ((next + 1) as u64), next, true),
    }
}

/// What each of a row of `enter` calls for the one target `t` answers:
/// the actor and whether that call created it, in call order.
pub open spec fn observed_enters(s: Seq<SessionEntry>, next: u64, t: i64, n: nat) -> Seq<(u64, bool)>
    decreases n,
{
    if n == 0 {
        Seq::empty()
    } else {
        let (s2, next2, a, created) = seq_enter(s, next, t);
        seq![(a, created)] + observed_enters(s2, next2, t, (n - 1) as nat)
    }
}

/// Once `t` is bound to actor `a`, every further `enter` for `t` answers
/// `(a, false)` and moves nothing.
proof fn lemma_enters_after_bind(s: Seq<SessionEntry>, next: u64, t: i64, n: nat, a: u64)
    requires
        actor_of(s, t) == Some(a),
    ensures
        observed_enters(s, next, t, n).len() == n,
        forall|i: int| 0 <= i < n ==> observed_enters(s, next, t, n)[i] == (a, false),
    decreases n,
{
    if n > 0 {
        lemma_enters_after_bind(s, next, t, (n - 1) as nat, a);
    }
}

/// The rendezvous law: from a registry that does not know `t`, any number
/// of consecutive `enter` calls for `t` — however many users race to enter
/// the same session — create exactly one actor, on the first call, and
/// every call lands on that same actor. Each call hands one `Enter`
/// message to the actor it answers, so that one actor observes exactly
/// as many `Enter` messages as there were calls.
pub proof fn lemma_session_rendezvous(s: Seq<SessionEntry>, next: u64, t: i64, n: nat)
    requires
        entries_wf(s),
        actor_of(s, t) is None,
        next < u64::MAX,
        n >= 1,
    ensures
        observed_enters(s, next, t, n).len() == n,
        observed_enters(s, next, t, n)[0] == (next, true),
        forall|i: int| 1 <= i < n ==> observed_enters(s, next, t, n)[i] == (next, false),
{
    let (s2, next2, a, created) = seq_enter(s, next, t);
    assert(s2[s2.len() - 1].target == t);
    assert(entries_wf(s2)) by {
        assert forall|i: int, j: int| 0 <= i < j < s2.len() implies (#[trigger] s2[i]).target != (
        #[trigger] s2[j]).target by {
            if j < s2.len() - 1 {
                assert(s2[i] == s[i] && s2[j] == s[j]);
            } else {
                assert(s2[i] == s[i]);
                assert(actor_of(s, t) is None ==> s[i].target != t);
            }
        }
    }
    lemma_actor_at(s2, s2.len() - 1);
    lemma_enters_after_bind(s2, next2, t, (n - 1) as nat, next);
    assert forall|i: int| 1 <= i < n implies observed_enters(s, next, t, n)[i] == (
    next,
    false,
    ) by {
        assert(observed_enters(s, next, t, n)[i] == observed_enters(s2, next2, t, (n - 1) as nat)[
            i - 1]);
    }
}

/// The fan-out plan of a broadcast: for each listed user, in order, one
/// send per open connection of that user, in registration order.
pub open spec fn spec_broadcast_targets(s: Seq<UserBucket>, users: Seq<i64>) -> Seq<(i64, u64)>
    decreases users.len(),
{
    if users.len() == 0 {
        Seq::empty()
    } else {
        conns_of(s, users[0]).map_values(|h: u64| (users[0], h)) + spec_broadcast_targets(
            s,
            users.drop_first(),
        )
    }
}

impl ConnectionRegistry {
    /// Computes a broadcast's fan-out: every connection of every listed
    /// user, each exactly once. The runtime performs one bounded send per
    /// pair, so no recipient's slowness can starve another's delivery.
    #[verifier::loop_isolation(false)]
    pub fn broadcast_targets(&self, users: &Vec<i64>) -> (r: Vec<(i64, u64)>)
        requires
            buckets_wf(self.buckets@),
        ensures
            r@ == spec_broadcast_targets(self.buckets@, users@),
    {
        let mut r: Vec<(i64, u64)> = Vec::new();
        let n = users.len();
        let mut i: usize = 0;
        proof {
            assert(r@ =~= spec_broadcast_targets(self.buckets@, users@.subrange(0, 0)));
        }
        while i < n
            invariant
                0 <= i <= n == users@.len(),
                r@ == spec_broadcast_targets(self.buckets@, users@.subrange(0, i as int)),
            decreases n - i,
        {
            let user = users[i];
            let conns = self.recipients(user);
            let m = conns.len();
            let mut j: usize = 0;
            while j < m
                invariant
                    0 <= j <= m == conns@.len(),
                    conns@ == conns_of(self.buckets@, users@[i as int]),
                    0 <= i < n == users@.len(),
                    user == users@[i as int],
                    r@ == spec_broadcast_targets(self.buckets@, users@.subrange(0, i as int))
                        + conns_of(self.buckets@, users@[i as int]).map_values(
                        |h: u64| (users@[i as int], h),
                    ).subrange(0, j as int),
                decreases m - j,
            {
                r.push((user, conns[j]));
                proof {
                    let mapped = conns_of(self.buckets@, users@[i as int]).map_values(
                        |h: u64| (users@[i as int], h),
                    );
                    assert(mapped.subrange(0, j as int + 1) =~= mapped.subrange(0, j as int).push(
                        mapped[j as int],
                    ));
                }
                j = j + 1;
            }
            proof {
                let mapped = conns_of(self.buckets@, users@[i as int]).map_values(
                    |h: u64| (users@[i as int], h),
                );
                assert(mapped.subrange(0, mapped.len() as int) =~= mapped);
                lemma_broadcast_targets_snoc(self.buckets@, users@, i as int);
            }
            i = i + 1;
        }
        proof {
            assert(users@.subrange(0, n as int) =~= users@);
        }
        r
    }
}

/// Extending the user list by one appends that user's fan-out.
proof fn lemma_broadcast_targets_snoc(s: Seq<UserBucket>, users: Seq<i64>, i: int)
    requires
        0 <= i < users.len(),
    ensures
        spec_broadcast_targets(s, users.subrange(0, i + 1)) == spec_broadcast_targets(
            s,
            users.subrange(0, i),
        ) + conns_of(s, users[i]).map_values(|h: u64| (users[i], h)),
    decreases i,
{
    let pre = users.subrange(0, i);
    let post = users.subrange(0, i + 1);
    if i == 0 {
        assert(pre =~= Seq::<i64>::empty());
        assert(post.drop_first() =~= Seq::<i64>::empty());
        assert(post[0] == users[0]);
        assert(spec_broadcast_targets(s, post) =~= conns_of(s, users[0]).map_values(
            |h: u64| (users[0], h),
        ));
    } else {
        lemma_broadcast_targets_snoc(s, users.drop_first(), i - 1);
        assert(post[0] == users[0]);
        assert(pre[0] == users[0]);
        assert(post.drop_first() =~= users.drop_first().subrange(0, i));
        assert(pre.drop_first() =~= users.drop_first().subrange(0, i - 1));
        assert(users.drop_first()[i - 1] == users[i]);
        assert(spec_broadcast_targets(s, post) =~= spec_broadcast_targets(s, pre) + conns_of(
            s,
            users[i],
        ).map_values(|h: u64| (users[i], h)));
    }
}

/// How many sends a broadcast performs: one per connection of each listed
/// user.
pub open spec fn fanout_count(s: Seq<UserBucket>, users: Seq<i64>) -> int
    decreases users.len(),
{
    if users.len() == 0 {
        0
    } else {
        conns_of(s, users[0]).len() + fanout_count(s, users.drop_first())
    }
}

/// A broadcast to K listed users performs exactly one send per connection
/// of each user — each bounded by the per-recipient window, so the whole
/// broadcast is bounded by as many windows, and no blocked recipient can
/// starve another.
pub proof fn lemma_one_send_per_connection(s: Seq<UserBucket>, users: Seq<i64>)
    ensures
        spec_broadcast_targets(s, users).len() == fanout_count(s, users),
    decreases users.len(),
{
    if users.len() > 0 {
        lemma_one_send_per_connection(s, users.drop_first());
    }
}

/// Garbage collection reaps a fully-closed user: when every connection in
/// a user's bucket has closed, a `gc` with those handles leaves the user
/// with no connections — and `gc` removes the empty bucket itself.
pub proof fn lemma_gc_reaps_closed_user(conns: Seq<u64>, closed: Seq<u64>)
    requires
        forall|i: int| 0 <= i < conns.len() ==> closed.contains(#[trigger] conns[i]),
    ensures
        conns.filter(|h: u64| !closed.contains(h)).len() == 0,
    decreases conns.len(),
{
    reveal_with_fuel(Seq::<u64>::filter, 2);
    if conns.len() > 0 {
        assert(forall|i: int|
            0 <= i < conns.drop_last().len() ==> closed.contains(
                #[trigger] conns.drop_last()[i],
            ));
        lemma_gc_reaps_closed_user(conns.drop_last(), closed);
        assert(closed.contains(conns.last()));
    }
}

} // verus!
