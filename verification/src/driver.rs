//! The game subprocess driver's pairing discipline.
//!
//! The driver writes one request line, then reads exactly one response
//! line; the response's discriminator must equal the request's, and any
//! mismatch — like any transport failure — is fatal to that subprocess.
//! The state machine here is the verified heart of that discipline; the
//! actual pipe I/O happens outside and hands every received response back
//! through `finish`.

use vstd::prelude::*;
use crate::game::{Game, GameRequest, GameResponse, MessageTag, spec_request_tag,
    spec_response_tag};

verus! {

/// A fatal driver error.
#[derive(Debug, Clone, Copy, PartialEq, Eq, Structural)]
pub enum DriverError {
    /// The response's discriminator did not match the request's.
    ResponseMismatch { expected: MessageTag, got: MessageTag },
    /// The subprocess died, or its pipe closed or failed.
    Transport,
}

/// Where the driver stands: free to issue a request, waiting for the
/// response to one, or dead after a fatal error.
#[derive(Debug, Clone, Copy, PartialEq, Eq, Structural)]
pub enum DriverPhase {
    Idle,
    Awaiting(MessageTag),
    Dead,
}

/// The pairing state machine of one game subprocess.
#[derive(Debug, Clone, Copy, PartialEq, Eq, Structural)]
pub struct GameDriver {
    pub phase: DriverPhase,
}

impl GameDriver {
    /// A fresh driver, ready to issue its first request (`Initialize`,
    /// by the wire protocol's lifecycle).
    pub fn new() -> (r: GameDriver)
        ensures
            r.phase == DriverPhase::Idle,
    {
        GameDriver { phase: DriverPhase::Idle }
    }

    /// Records that `req` was written to the subprocess. Only one request
    /// may be outstanding.
    pub fn issue<G: Game>(&mut self, req: &GameRequest<G>)
        requires
            old(self).phase == DriverPhase::Idle,
        ensures
            final(self).phase == DriverPhase::Awaiting(spec_request_tag(*req)),
    {
        self.phase = DriverPhase::Awaiting(req.tag());
    }

    /// Consumes the one response read for the outstanding request. A
    /// matching discriminator hands the response through and frees the
    /// driver; a mismatch is fatal.
    pub fn finish<G: Game>(&mut self, resp: GameResponse<G>) -> (r: Result<
        GameResponse<G>,
        DriverError,
    >)
        requires
            old(self).phase matches DriverPhase::Awaiting(_),
        ensures
            ({
                let expected = old(self).phase->Awaiting_0;
                if spec_response_tag(resp) == expected {
                    &&& r matches Ok(out) && spec_response_tag(out) == expected
                    &&& final(self).phase == DriverPhase::Idle
                } else {
                    &&& r == Err::<GameResponse<G>, DriverError>(
                        DriverError::ResponseMismatch {
                            expected,
                            got: spec_response_tag(resp),
                        },
                    )
                    &&& final(self).phase == DriverPhase::Dead
                }
            }),
            r matches Ok(out) ==> out == resp,
    {
        let expected = match self.phase {
            DriverPhase::Awaiting(t) => t,
            _ => MessageTag::Initialize,
        };
        let got = resp.tag();
        if got == expected {
            self.phase = DriverPhase::Idle;
            Ok(resp)
        } else {
            self.phase = DriverPhase::Dead;
            Err(DriverError::ResponseMismatch { expected, got })
        }
    }

    /// Records a transport failure (the subprocess exited, a pipe broke):
    /// fatal, whatever was outstanding.
    pub fn transport_failed(&mut self)
        ensures
            final(self).phase == DriverPhase::Dead,
    {
        self.phase = DriverPhase::Dead;
    }

    /// Whether this driver can still be used.
    pub fn is_alive(&self) -> (r: bool)
        ensures
            r == (self.phase != DriverPhase::Dead),
    {
        match self.phase {
            DriverPhase::Dead => false,
            _ => true,
        }
    }
}

/// One observable step of a driver's life, by discriminator.
#[derive(Debug, Clone, Copy, PartialEq, Eq, Structural)]
pub enum DriverEvent {
    /// A request with this discriminator was written.
    Issue(MessageTag),
    /// A response was read and its discriminator matched.
    Accept(MessageTag),
    /// A response was read and its discriminator did not match.
    Reject(MessageTag),
    /// The transport failed.
    Fail,
}

/// The phase a trace of events leads to from `pre`, when every step is
/// legal.
pub open spec fn driver_run(pre: DriverPhase, tr: Seq<DriverEvent>) -> Option<DriverPhase>
    decreases tr.len(),
{
    if tr.len() == 0 {
        Some(pre)
    } else {
        let mid = match tr[0] {
            DriverEvent::Issue(t) => if pre == DriverPhase::Idle {
                Some(DriverPhase::Awaiting(t))
            } else {
                None
            },
            DriverEvent::Accept(t) => if pre == DriverPhase::Awaiting(t) {
                Some(DriverPhase::Idle)
            } else {
                None
            },
            DriverEvent::Reject(t) => if pre matches DriverPhase::Awaiting(e) && e != t {
                Some(DriverPhase::Dead)
            } else {
                None
            },
            DriverEvent::Fail => Some(DriverPhase::Dead),
        };
        match mid {
            Some(p) => driver_run(p, tr.drop_first()),
            None => None,
        }
    }
}

/// How many requests a trace writes.
pub open spec fn count_issued(tr: Seq<DriverEvent>) -> int
    decreases tr.len(),
{
    if tr.len() == 0 {
        0
    } else {
        (if tr[0] is Issue {
            1int
        } else {
            0int
        }) + count_issued(tr.drop_first())
    }
}

/// How many responses a trace consumes, matched or not.
pub open spec fn count_consumed(tr: Seq<DriverEvent>) -> int
    decreases tr.len(),
{
    if tr.len() == 0 {
        0
    } else {
        (if tr[0] is Accept || tr[0] is Reject {
            1int
        } else {
            0int
        }) + count_consumed(tr.drop_first())
    }
}

/// Request/response pairing: along any legal trace from an idle driver on
/// which the transport holds up, every request is answered by exactly one
/// consumed response, except the one still outstanding when the trace ends
/// waiting. (A transport failure can abort the outstanding request with no
/// response ever consumed.)
pub proof fn lemma_driver_pairing(tr: Seq<DriverEvent>, end: DriverPhase)
    requires
        driver_run(DriverPhase::Idle, tr) == Some(end),
        forall|j: int| 0 <= j < tr.len() ==> !((#[trigger] tr[j]) is Fail),
    ensures
        count_issued(tr) == count_consumed(tr) + (if end is Awaiting {
            1int
        } else {
            0int
        }),
    decreases tr.len(),
{
    lemma_driver_pairing_from(DriverPhase::Idle, tr, end);
}

/// The generalisation of the pairing count to any legal starting phase.
pub proof fn lemma_driver_pairing_from(pre: DriverPhase, tr: Seq<DriverEvent>, end: DriverPhase)
    requires
        driver_run(pre, tr) == Some(end),
        forall|j: int| 0 <= j < tr.len() ==> !((#[trigger] tr[j]) is Fail),
    ensures
        count_issued(tr) + (if pre is Awaiting {
            1int
        } else {
            0int
        }) == count_consumed(tr) + (if end is Awaiting {
            1int
        } else {
            0int
        }),
    decreases tr.len(),
{
    if tr.len() > 0 {
        let rest = tr.drop_first();
        assert(forall|j: int| 0 <= j < rest.len() ==> rest[j] == tr[j + 1]);
        match tr[0] {
            DriverEvent::Issue(t) => {
                lemma_driver_pairing_from(DriverPhase::Awaiting(t), rest, end);
            },
            DriverEvent::Accept(t) => {
                lemma_driver_pairing_from(DriverPhase::Idle, rest, end);
            },
            DriverEvent::Reject(t) => {
                lemma_driver_pairing_from(DriverPhase::Dead, rest, end);
            },
            DriverEvent::Fail => {
                lemma_driver_pairing_from(DriverPhase::Dead, rest, end);
            },
        }
    }
}

/// A mismatched response is fatal: after a `Reject`, a legal trace admits
/// no further request and consumes no further response.
pub proof fn lemma_mismatch_is_fatal(tr: Seq<DriverEvent>, end: DriverPhase, i: int)
    requires
        driver_run(DriverPhase::Idle, tr) == Some(end),
        0 <= i < tr.len(),
        tr[i] is Reject,
    ensures
        forall|j: int| i < j < tr.len() ==> !((#[trigger] tr[j]) is Issue) && !(tr[j] is Accept)
            && !(tr[j] is Reject),
{
    lemma_dead_stays_dead(DriverPhase::Idle, tr, end, i);
}

/// From the step after a fatal event onward, a legal trace holds only
/// further transport failures.
proof fn lemma_dead_stays_dead(pre: DriverPhase, tr: Seq<DriverEvent>, end: DriverPhase, i: int)
    requires
        driver_run(pre, tr) == Some(end),
        0 <= i < tr.len(),
        tr[i] is Reject || tr[i] is Fail,
    ensures
        forall|j: int| i < j < tr.len() ==> !((#[trigger] tr[j]) is Issue) && !(tr[j] is Accept)
            && !(tr[j] is Reject),
    decreases tr.len(),
{
    if i > 0 {
        let rest = tr.drop_first();
        assert(rest[i - 1] == tr[i]);
        match tr[0] {
            DriverEvent::Issue(t) => {
                lemma_dead_stays_dead(DriverPhase::Awaiting(t), rest, end, i - 1);
            },
            DriverEvent::Accept(t) => {
                lemma_dead_stays_dead(DriverPhase::Idle, rest, end, i - 1);
            },
            DriverEvent::Reject(t) => {
                lemma_dead_stays_dead(DriverPhase::Dead, rest, end, i - 1);
            },
            DriverEvent::Fail => {
                lemma_dead_stays_dead(DriverPhase::Dead, rest, end, i - 1);
            },
        }
        assert forall|j: int| i < j < tr.len() implies !((#[trigger] tr[j]) is Issue) && !(tr[j]
            is Accept) && !(tr[j] is Reject) by {
            assert(rest[j - 1] == tr[j]);
        }
    } else {
        lemma_only_fail_from_dead(tr.drop_first(), end);
        assert forall|j: int| 0 < j < tr.len() implies !((#[trigger] tr[j]) is Issue) && !(tr[j]
            is Accept) && !(tr[j] is Reject) by {
            assert(tr.drop_first()[j - 1] == tr[j]);
        }
    }
}

/// From a dead driver, only further transport failures are legal.
proof fn lemma_only_fail_from_dead(tr: Seq<DriverEvent>, end: DriverPhase)
    requires
        driver_run(DriverPhase::Dead, tr) == Some(end),
    ensures
        forall|j: int| 0 <= j < tr.len() ==> (#[trigger] tr[j]) is Fail,
    decreases tr.len(),
{
    if tr.len() > 0 {
        lemma_only_fail_from_dead(tr.drop_first(), end);
        assert forall|j: int| 0 <= j < tr.len() implies (#[trigger] tr[j]) is Fail by {
            if j > 0 {
                assert(tr.drop_first()[j - 1] == tr[j]);
            }
        }
    }
}

} // verus!
