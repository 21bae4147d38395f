//! A fixed list of calls, made in order.
//!
//! Teardown makes every call of its list, whatever the host answers: a
//! failed disposal does not excuse the releases that follow it. A composed
//! operation stops at the first call that fails. Both remember the first
//! failure and end with it.

use vstd::prelude::*;
use crate::call::{CallView, HostCall, HostReply, ReplyView};
use crate::error::{Error, STATUS_OK};
use crate::machine::{after, trace, Machine};

verus! {

/// The mathematical content of a list of calls.
pub open spec fn call_views(calls: Seq<HostCall>) -> Seq<CallView> {
    Seq::new(calls.len(), |i: int| calls[i]@)
}

/// The mathematical content of a [`Sequence`].
pub struct SequenceView {
    /// The calls of the list.
    pub calls: Seq<CallView>,
    /// How many of them have been answered.
    pub cursor: nat,
    /// Whether the first failure ends the sequence.
    pub stops: bool,
    /// The first failure so far.
    pub failure: Option<Error>,
}

impl SequenceView {
    /// Whether the reply to the pending call counts as a failure. What the
    /// host answers to a release is not looked at.
    pub open spec fn fails(self, reply: ReplyView) -> bool {
        !(self.calls[self.cursor as int] is Release) && !reply.succeeded()
    }

    /// What the sequence ends with: its first failure, if there was one.
    pub open spec fn result(self) -> Result<(), Error> {
        match self.failure {
            Some(e) => Err(e),
            None => Ok(()),
        }
    }
}

impl Machine for SequenceView {
    open spec fn next_call(self) -> Option<CallView> {
        if self.cursor < self.calls.len() && !(self.stops && self.failure is Some) {
            Some(self.calls[self.cursor as int])
        } else {
            None
        }
    }

    open spec fn step(self, reply: ReplyView) -> Self {
        SequenceView {
            cursor: self.cursor + 1,
            failure: if self.failure is None && self.fails(reply) {
                Some(Error::Host(reply.status))
            } else {
                self.failure
            },
            ..self
        }
    }
}

/// A fixed list of calls, made in order.
#[derive(Debug)]
pub struct Sequence {
    calls: Vec<HostCall>,
    cursor: usize,
    stops: bool,
    failure: Option<Error>,
}

impl View for Sequence {
    type V = SequenceView;

    closed spec fn view(&self) -> SequenceView {
        SequenceView {
            calls: call_views(self.calls@),
            cursor: self.cursor as nat,
            stops: self.stops,
            failure: self.failure,
        }
    }
}

impl Sequence {
    #[verifier::type_invariant]
    spec fn cursor_in_list(self) -> bool {
        self.cursor <= self.calls@.len()
    }

    /// A sequence that makes every call of `calls`, whatever the host
    /// answers.
    pub fn run_all(calls: Vec<HostCall>) -> (s: Self)
        ensures
            s@ == (SequenceView {
                calls: call_views(calls@),
                cursor: 0,
                stops: false,
                failure: None,
            }),
    {
        Sequence { calls, cursor: 0, stops: false, failure: None }
    }

    /// A sequence that makes the calls of `calls` until one fails.
    pub fn until_failure(calls: Vec<HostCall>) -> (s: Self)
        ensures
            s@ == (SequenceView {
                calls: call_views(calls@),
                cursor: 0,
                stops: true,
                failure: None,
            }),
    {
        Sequence { calls, cursor: 0, stops: true, failure: None }
    }

    /// The call to perform next, or `None` when the sequence is done.
    pub fn call(&self) -> (c: Option<HostCall>)
        ensures
            c is Some <==> self@.next_call() is Some,
            c matches Some(call) ==> call@ == self@.next_call()->Some_0,
    {
        proof {
            use_type_invariant(self);
        }
        if self.cursor < self.calls.len() && !(self.stops && self.failure.is_some()) {
            Some(self.calls[self.cursor].duplicate())
        } else {
            None
        }
    }

    /// Hands the sequence the host's reply to the call it asked for.
    pub fn advance(self, reply: &HostReply) -> (s: Self)
        requires
            self@.next_call() is Some,
        ensures
            s@ == self@.step(reply@),
    {
        proof {
            use_type_invariant(&self);
        }
        let Sequence { calls, cursor, stops, failure } = self;
        let len: usize = calls.len();
        proof {
            assert(call_views(calls@).len() == len);
        }
        let failed: bool = match &calls[cursor] {
            HostCall::Release { .. } => false,
            _ => reply.status != STATUS_OK,
        };
        let failure = if failure.is_none() && failed {
            Some(Error::Host(reply.status))
        } else {
            failure
        };
        Sequence { calls, cursor: cursor + 1, stops, failure }
    }

    /// Whether every call that the sequence had to make has been made and
    /// none of them failed.
    pub fn succeeded(&self) -> (ok: bool)
        ensures
            ok == (self@.next_call() is None && self@.failure is None),
    {
        proof {
            use_type_invariant(self);
        }
        self.cursor >= self.calls.len() && self.failure.is_none()
    }

    /// Concludes a teardown, whose failure cannot be recovered from: every
    /// call must have been made and none may have failed. The caller tests
    /// the sequence with [`Sequence::succeeded`] and treats anything else as
    /// fatal.
    pub fn conclude(self)
        requires
            self@.next_call() is None,
            self@.failure is None,
    {
    }

    /// What the sequence ended with, once no call is left: its first
    /// failure, if there was one.
    pub fn finish(self) -> (r: Option<Result<(), Error>>)
        ensures
            r == if self@.next_call() is None {
                Some(self@.result())
            } else {
                None::<Result<(), Error>>
            },
    {
        proof {
            use_type_invariant(&self);
        }
        if self.cursor < self.calls.len() && !(self.stops && self.failure.is_some()) {
            None
        } else {
            match self.failure {
                Some(e) => Some(Err(e)),
                None => Some(Ok(())),
            }
        }
    }
}

/// A sequence that runs to the end makes each of its remaining calls exactly
/// once, in the order of the list, whatever the host answers.
pub proof fn lemma_run_all_makes_every_call(s: SequenceView, replies: Seq<ReplyView>)
    requires
        !s.stops,
        s.cursor <= s.calls.len(),
        replies.len() >= s.calls.len() - s.cursor,
    ensures
        trace(s, replies) == s.calls.skip(s.cursor as int),
        after(s, replies).next_call() is None,
    decreases replies.len(),
{
    if s.cursor < s.calls.len() {
        let next = s.step(replies[0]);
        lemma_run_all_makes_every_call(next, replies.skip(1));
        assert(trace(s, replies) =~= s.calls.skip(s.cursor as int));
    } else {
        assert(trace(s, replies) =~= s.calls.skip(s.cursor as int));
    }
}

/// A stopping sequence whose calls all succeed makes each of them exactly
/// once, in order, and ends without a failure.
pub proof fn lemma_unfailing_sequence_completes(s: SequenceView, replies: Seq<ReplyView>)
    requires
        s.failure is None,
        s.cursor <= s.calls.len(),
        replies.len() >= s.calls.len() - s.cursor,
        forall|i: int| 0 <= i < s.calls.len() - s.cursor ==> (#[trigger] replies[i]).succeeded(),
    ensures
        trace(s, replies) == s.calls.skip(s.cursor as int),
        after(s, replies).next_call() is None,
        after(s, replies).result() == Ok::<(), Error>(()),
    decreases replies.len(),
{
    if s.cursor < s.calls.len() {
        let next = s.step(replies[0]);
        let rest = replies.skip(1);
        assert forall|i: int| 0 <= i < next.calls.len() - next.cursor implies (#[trigger] rest[i]).succeeded() by {
            assert(rest[i] == replies[i + 1]);
        }
        lemma_unfailing_sequence_completes(next, rest);
        assert(trace(s, replies) =~= s.calls.skip(s.cursor as int));
    } else {
        assert(trace(s, replies) =~= s.calls.skip(s.cursor as int));
    }
}

/// A stopping sequence makes no call after the first one that fails, and
/// ends with the failure that carries the status code of that call.
pub proof fn lemma_first_failure_ends_sequence(s: SequenceView, replies: Seq<ReplyView>)
    requires
        s.stops,
        s.failure is None,
        s.cursor < s.calls.len(),
        replies.len() >= 1,
        s.fails(replies[0]),
    ensures
        trace(s, replies) == seq![s.calls[s.cursor as int]],
        after(s, replies).next_call() is None,
        after(s, replies).result() == Err::<(), Error>(Error::Host(replies[0].status)),
{
    let next = s.step(replies[0]);
    assert(next.next_call() is None);
    assert(trace(next, replies.skip(1)) == Seq::<CallView>::empty());
    assert(after(next, replies.skip(1)) == next);
    assert(trace(s, replies) =~= seq![s.calls[s.cursor as int]]);
}

} // verus!
