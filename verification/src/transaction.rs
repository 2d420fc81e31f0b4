//! The transaction envelope.
//!
//! A persistence transaction carries a list of post-commit hooks: work
//! (notifications, replies) that must not happen unless the transaction
//! becomes durable. Hooks are handed out for firing exactly when the inner
//! commit succeeded; a rollback, a failed commit, or a dropped envelope
//! fires none. The store itself lives outside; it reports whether its
//! commit succeeded.

use vstd::prelude::*;

verus! {

/// Why a transaction failed: the store itself, the application's own
/// error, or an unexpected internal condition.
#[derive(Debug)]
pub enum TransactError<A> {
    Persistence(String),
    App(A),
    Internal(String),
}

/// The hooks that fire for a commit outcome: all of them on success, none
/// otherwise.
pub open spec fn fired_hooks<H>(hooks: Seq<H>, committed: bool) -> Seq<H> {
    if committed {
        hooks
    } else {
        Seq::empty()
    }
}

/// A persistence transaction's envelope: the post-commit hooks registered
/// so far, in registration order.
pub struct TransactionEnvelope<H> {
    pub hooks: Vec<H>,
}

impl<H> TransactionEnvelope<H> {
    /// A fresh envelope with no hooks.
    pub fn begin() -> (r: TransactionEnvelope<H>)
        ensures
            r.hooks@.len() == 0,
    {
        TransactionEnvelope { hooks: Vec::new() }
    }

    /// Registers a hook to fire after a successful commit.
    pub fn on_commit(&mut self, hook: H)
        ensures
            final(self).hooks@ == old(self).hooks@.push(hook),
    {
        self.hooks.push(hook);
    }

    /// Closes the envelope once the inner commit has been attempted:
    /// hands out every hook, in registration order, iff the commit
    /// succeeded, and none otherwise.
    pub fn commit(self, inner_committed: bool) -> (fired: Vec<H>)
        ensures
            fired@ == fired_hooks(self.hooks@, inner_committed),
    {
        if inner_committed {
            self.hooks
        } else {
            proof {
                assert(fired_hooks::<H>(self.hooks@, false) =~= Seq::<H>::empty());
            }
            Vec::new()
        }
    }

    /// Discards the envelope without committing: no hook fires.
    pub fn rollback(self) -> (fired: Vec<H>)
        ensures
            fired@ == fired_hooks(self.hooks@, false),
            fired@.len() == 0,
    {
        proof {
            assert(fired_hooks::<H>(self.hooks@, false) =~= Seq::<H>::empty());
        }
        Vec::new()
    }
}

/// Post-commit hooks fire iff the commit succeeded: whatever hooks were
/// registered, a successful commit fires exactly those, in order, and any
/// other outcome fires none.
pub proof fn lemma_hooks_fire_iff_commit<H>(hooks: Seq<H>, committed: bool)
    ensures
        committed ==> fired_hooks(hooks, committed) == hooks,
        !committed ==> fired_hooks(hooks, committed).len() == 0,
{
}

} // verus!
