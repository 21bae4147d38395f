//! What all operations of more than one call have in common.
//!
//! An operation is a state machine. In each state it either asks for one
//! call or is done. The caller performs the call and hands the host's reply
//! back, which moves the machine to its next state. The calls that a machine
//! asks for while it is fed a list of replies are its trace: the record of
//! what reaches the host.

use vstd::prelude::*;
use crate::call::{CallView, ReplyView};
use crate::entry::SuiteId;

verus! {

/// The mathematical content of a state machine that talks to the host.
pub trait Machine: Sized {
    /// The call that the machine asks for, or `None` when it is done.
    spec fn next_call(self) -> Option<CallView>;

    /// The machine after the host has answered its call.
    spec fn step(self, reply: ReplyView) -> Self;
}

/// The calls that a machine asks for while it is fed `replies`, one reply
/// per call, until it is done or the replies run out.
pub open spec fn trace<M: Machine>(m: M, replies: Seq<ReplyView>) -> Seq<CallView>
    decreases replies.len(),
{
    if m.next_call() is Some && replies.len() > 0 {
        seq![m.next_call()->Some_0] + trace(m.step(replies[0]), replies.skip(1))
    } else {
        Seq::<CallView>::empty()
    }
}

/// The machine after it has been fed `replies`.
pub open spec fn after<M: Machine>(m: M, replies: Seq<ReplyView>) -> M
    decreases replies.len(),
{
    if m.next_call() is Some && replies.len() > 0 {
        after(m.step(replies[0]), replies.skip(1))
    } else {
        m
    }
}

/// How many calls of a trace give the named table back.
pub open spec fn releases_of(calls: Seq<CallView>, id: SuiteId) -> nat
    decreases calls.len(),
{
    if calls.len() == 0 {
        0
    } else {
        releases_of(calls.drop_last(), id) + if calls.last().releases(id) {
            1nat
        } else {
            0nat
        }
    }
}

/// How many calls of a trace look the named table up.
pub open spec fn acquisitions_of(calls: Seq<CallView>, id: SuiteId) -> nat
    decreases calls.len(),
{
    if calls.len() == 0 {
        0
    } else {
        acquisitions_of(calls.drop_last(), id) + if calls.last().acquires(id) {
            1nat
        } else {
            0nat
        }
    }
}

/// Whether every call of a list is the call of a table entry.
pub open spec fn only_invokes(calls: Seq<CallView>) -> bool {
    forall|i: int| 0 <= i < calls.len() ==> (#[trigger] calls[i]) is Invoke
}

/// The lookups and the releases of two lists of calls add up.
pub proof fn lemma_counts_add(a: Seq<CallView>, b: Seq<CallView>, id: SuiteId)
    ensures
        releases_of(a + b, id) == releases_of(a, id) + releases_of(b, id),
        acquisitions_of(a + b, id) == acquisitions_of(a, id) + acquisitions_of(b, id),
    decreases b.len(),
{
    if b.len() == 0 {
        assert(a + b =~= a);
    } else {
        assert((a + b).drop_last() =~= a + b.drop_last());
        assert((a + b).last() == b.last());
        lemma_counts_add(a, b.drop_last(), id);
    }
}

/// A single call counts as a release, or as a lookup, exactly when it is one.
pub proof fn lemma_counts_of_one(call: CallView, id: SuiteId)
    ensures
        releases_of(seq![call], id) == if call.releases(id) {
            1nat
        } else {
            0nat
        },
        acquisitions_of(seq![call], id) == if call.acquires(id) {
            1nat
        } else {
            0nat
        },
{
    let one = seq![call];
    assert(one.drop_last() =~= Seq::<CallView>::empty());
    assert(one.last() == call);
    assert(releases_of(one.drop_last(), id) == 0);
    assert(acquisitions_of(one.drop_last(), id) == 0);
}

/// Calls of table entries neither look a table up nor give one back.
pub proof fn lemma_invokes_count_nothing(calls: Seq<CallView>, id: SuiteId)
    requires
        only_invokes(calls),
    ensures
        releases_of(calls, id) == 0,
        acquisitions_of(calls, id) == 0,
    decreases calls.len(),
{
    if calls.len() > 0 {
        assert(calls.last() == calls[calls.len() - 1]);
        assert forall|i: int| 0 <= i < calls.drop_last().len() implies (
        #[trigger] calls.drop_last()[i]) is Invoke by {
            assert(calls.drop_last()[i] == calls[i]);
        }
        lemma_invokes_count_nothing(calls.drop_last(), id);
    }
}

} // verus!
