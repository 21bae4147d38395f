//! One call through a table that is acquired for the call alone.
//!
//! The machine looks the table up, calls one entry, gives the table back, and
//! yields the result of the call. It serves the occasional call of a table
//! that the caller holds no guard for.

use vstd::prelude::*;
use crate::call::{CallView, HostCall, HostReply, ReplyView};
use crate::decode::Decode;
use crate::entry::{Entry, SuiteId};
use crate::error::{Error, STATUS_OK};
use crate::machine::{
    acquisitions_of, after, lemma_counts_add, lemma_counts_of_one, releases_of, trace, Machine,
};
use crate::pending::{answers, outcome};
use crate::registry::{names_table, Registry};
use crate::value::{copy_values, Value};

verus! {

/// Where a [`Scoped`] call stands.
pub enum Phase<T> {
    /// The lookup of the table is the next call.
    Acquiring,
    /// The table is held; the entry is the next call.
    Invoking { table: usize },
    /// The entry has answered; the release of the table is the next call.
    Releasing { result: Result<T, Error> },
    /// Nothing is left to call.
    Done { result: Result<T, Error> },
}

/// The mathematical content of a [`Scoped`] call.
pub struct ScopedView<T> {
    pub registry: usize,
    pub suite: SuiteId,
    pub entry: Entry,
    pub args: Seq<Value>,
    pub phase: Phase<T>,
}

impl<T: Decode> ScopedView<T> {
    /// The machine before its first call. With a null registry root it is
    /// done at once, having failed, and never calls the host.
    pub open spec fn initial(registry: usize, suite: SuiteId, entry: Entry, args: Seq<Value>) -> Self {
        ScopedView {
            registry,
            suite,
            entry,
            args,
            phase: if registry == 0 {
                Phase::Done { result: Err(Error::Unavailable) }
            } else {
                Phase::Acquiring
            },
        }
    }

    /// Whether `reply` answers the call that the machine asks for.
    pub open spec fn accepts(self, reply: ReplyView) -> bool {
        match self.phase {
            Phase::Acquiring => names_table(reply),
            Phase::Invoking { .. } => answers::<T>(reply),
            Phase::Releasing { .. } => true,
            Phase::Done { .. } => false,
        }
    }
}

impl<T: Decode> Machine for ScopedView<T> {
    open spec fn next_call(self) -> Option<CallView> {
        match self.phase {
            Phase::Acquiring => Some(
                CallView::Acquire { registry: self.registry, suite: self.suite },
            ),
            Phase::Invoking { table } => Some(
                CallView::Invoke {
                    table,
                    entry: self.entry,
                    args: self.args,
                    outputs: T::template(),
                },
            ),
            Phase::Releasing { .. } => Some(
                CallView::Release { registry: self.registry, suite: self.suite },
            ),
            Phase::Done { .. } => None,
        }
    }

    open spec fn step(self, reply: ReplyView) -> Self {
        let phase = match self.phase {
            Phase::Acquiring => if reply.succeeded() {
                Phase::Invoking { table: reply.outputs[0]->Handle_0 }
            } else {
                Phase::Done { result: Err(Error::Unavailable) }
            },
            Phase::Invoking { .. } => Phase::Releasing { result: outcome::<T>(reply) },
            Phase::Releasing { result } => Phase::Done { result },
            Phase::Done { result } => Phase::Done { result },
        };
        ScopedView { phase, ..self }
    }
}

/// One call through a table that is acquired for the call alone.
pub struct Scoped<T: Decode> {
    registry: usize,
    suite: SuiteId,
    entry: Entry,
    args: Vec<Value>,
    phase: Phase<T>,
}

impl<T: Decode> View for Scoped<T> {
    type V = ScopedView<T>;

    closed spec fn view(&self) -> ScopedView<T> {
        ScopedView {
            registry: self.registry,
            suite: self.suite,
            entry: self.entry,
            args: self.args@,
            phase: self.phase,
        }
    }
}

impl<T: Decode> Scoped<T> {
    /// Prepares the call of `entry` with `args` through the table `suite`,
    /// looked up in `registry`.
    pub fn start(registry: &Registry, suite: SuiteId, entry: Entry, args: Vec<Value>) -> (m: Self)
        ensures
            m@ == ScopedView::<T>::initial(registry.raw, suite, entry, args@),
    {
        let phase = if registry.raw == 0 {
            Phase::Done { result: Err(Error::Unavailable) }
        } else {
            Phase::Acquiring
        };
        Scoped { registry: registry.raw, suite, entry, args, phase }
    }

    /// The call to perform next, or `None` when the machine is done.
    pub fn call(&self) -> (c: Option<HostCall>)
        ensures
            c is Some <==> self@.next_call() is Some,
            c matches Some(call) ==> call@ == self@.next_call()->Some_0,
    {
        match &self.phase {
            Phase::Acquiring => Some(
                HostCall::Acquire { registry: self.registry, suite: self.suite },
            ),
            Phase::Invoking { table } => {
                let mut outputs: Vec<Value> = Vec::new();
                T::offer(&mut outputs);
                proof {
                    assert(outputs@ =~= T::template());
                }
                Some(
                    HostCall::Invoke {
                        table: *table,
                        entry: self.entry,
                        args: copy_values(&self.args),
                        outputs,
                    },
                )
            },
            Phase::Releasing { .. } => Some(
                HostCall::Release { registry: self.registry, suite: self.suite },
            ),
            Phase::Done { .. } => None,
        }
    }

    /// Whether `reply` can be handed to [`Scoped::advance`].
    pub fn accepts(&self, reply: &HostReply) -> (ok: bool)
        ensures
            ok == self@.accepts(reply@),
    {
        match &self.phase {
            Phase::Acquiring => {
                if reply.status != STATUS_OK {
                    true
                } else if reply.outputs.len() != 1 {
                    false
                } else {
                    match reply.outputs[0] {
                        Value::Handle(_) => true,
                        _ => false,
                    }
                }
            },
            Phase::Invoking { .. } => {
                if reply.status != STATUS_OK {
                    return true;
                }
                let mut offered: Vec<Value> = Vec::new();
                T::offer(&mut offered);
                proof {
                    assert(offered@ =~= T::template());
                }
                if reply.outputs.len() != offered.len() {
                    return false;
                }
                proof {
                    assert(reply.outputs@.subrange(0, T::template().len() as int)
                        =~= reply.outputs@);
                }
                T::decode(&reply.outputs, 0).is_some()
            },
            Phase::Releasing { .. } => true,
            Phase::Done { .. } => false,
        }
    }

    /// Hands the machine the host's reply to the call it asked for.
    pub fn advance(self, reply: &HostReply) -> (m: Self)
        requires
            self@.accepts(reply@),
        ensures
            m@ == self@.step(reply@),
    {
        let Scoped { registry, suite, entry, args, phase } = self;
        let next = match phase {
            Phase::Acquiring => {
                if reply.status != STATUS_OK {
                    Phase::Done { result: Err(Error::Unavailable) }
                } else {
                    match reply.outputs[0] {
                        Value::Handle(table) => Phase::Invoking { table },
                        _ => Phase::Done { result: Err(Error::Unavailable) },
                    }
                }
            },
            Phase::Invoking { .. } => {
                if reply.status != STATUS_OK {
                    Phase::Releasing { result: Err(Error::Host(reply.status)) }
                } else {
                    proof {
                        assert(reply.outputs@.subrange(0, T::template().len() as int)
                            =~= reply.outputs@);
                    }
                    Phase::Releasing { result: Ok(T::decode(&reply.outputs, 0).unwrap()) }
                }
            },
            Phase::Releasing { result } => Phase::Done { result },
            Phase::Done { result } => Phase::Done { result },
        };
        Scoped { registry, suite, entry, args, phase: next }
    }

    /// The result of the call, once the machine is done.
    pub fn finish(self) -> (r: Option<Result<T, Error>>)
        ensures
            r == match self@.phase {
                Phase::Done { result } => Some(result),
                _ => None::<Result<T, Error>>,
            },
    {
        match self.phase {
            Phase::Done { result } => Some(result),
            _ => None,
        }
    }
}

/// With a null registry root the machine never calls the host, and its result
/// is the failure "unavailable".
pub proof fn lemma_null_registry_calls_nothing<T: Decode>(
    suite: SuiteId,
    entry: Entry,
    args: Seq<Value>,
    replies: Seq<ReplyView>,
)
    ensures
        trace(ScopedView::<T>::initial(0, suite, entry, args), replies) == Seq::<CallView>::empty(),
        ScopedView::<T>::initial(0, suite, entry, args).phase == (Phase::Done {
            result: Err::<T, Error>(Error::Unavailable),
        }),
{
}

/// When the lookup fails, the lookup is the only call that is ever made: the
/// entry is not called and no release follows.
pub proof fn lemma_failed_lookup_owes_no_release<T: Decode>(
    registry: usize,
    suite: SuiteId,
    entry: Entry,
    args: Seq<Value>,
    replies: Seq<ReplyView>,
)
    requires
        registry != 0,
        replies.len() >= 1,
        !replies[0].succeeded(),
    ensures
        trace(ScopedView::<T>::initial(registry, suite, entry, args), replies) == seq![
            CallView::Acquire { registry, suite },
        ],
        after(ScopedView::<T>::initial(registry, suite, entry, args), replies).phase == (Phase::Done {
            result: Err::<T, Error>(Error::Unavailable),
        }),
{
    let start = ScopedView::<T>::initial(registry, suite, entry, args);
    let failed = start.step(replies[0]);
    assert(trace(failed, replies.skip(1)) == Seq::<CallView>::empty());
    assert(trace(start, replies) =~= seq![CallView::Acquire { registry, suite }]);
    assert(after(failed, replies.skip(1)) == failed);
}

/// When the lookup succeeds, the machine makes exactly three calls: the
/// lookup, the entry with the given arguments and zeroed output slots on the
/// table that the lookup returned, and one release with the (name, version)
/// pair of the lookup. Its result is the result of the entry call, whether
/// that call succeeded or not.
pub proof fn lemma_scoped_call_releases_once<T: Decode>(
    registry: usize,
    suite: SuiteId,
    entry: Entry,
    args: Seq<Value>,
    replies: Seq<ReplyView>,
)
    requires
        registry != 0,
        replies.len() >= 3,
        replies[0].succeeded(),
    ensures
        trace(ScopedView::<T>::initial(registry, suite, entry, args), replies) == seq![
            CallView::Acquire { registry, suite },
            CallView::Invoke {
                table: replies[0].outputs[0]->Handle_0,
                entry,
                args,
                outputs: T::template(),
            },
            CallView::Release { registry, suite },
        ],
        after(ScopedView::<T>::initial(registry, suite, entry, args), replies).phase == (Phase::Done {
            result: outcome::<T>(replies[1]),
        }),
{
    let start = ScopedView::<T>::initial(registry, suite, entry, args);
    let held = start.step(replies[0]);
    let called = held.step(replies[1]);
    let done = called.step(replies[2]);
    let rest1 = replies.skip(1);
    let rest2 = rest1.skip(1);
    let rest3 = rest2.skip(1);
    assert(rest1[0] == replies[1]);
    assert(rest2[0] == replies[2]);
    assert(trace(done, rest3) == Seq::<CallView>::empty());
    assert(trace(called, rest2) =~= seq![CallView::Release { registry, suite }]);
    assert(trace(held, rest1) =~= seq![
        CallView::Invoke {
            table: replies[0].outputs[0]->Handle_0,
            entry,
            args,
            outputs: T::template(),
        },
        CallView::Release { registry, suite },
    ]);
    assert(trace(start, replies) =~= seq![
        CallView::Acquire { registry, suite },
        CallView::Invoke {
            table: replies[0].outputs[0]->Handle_0,
            entry,
            args,
            outputs: T::template(),
        },
        CallView::Release { registry, suite },
    ]);
    assert(after(done, rest3) == done);
    assert(after(called, rest2) == done);
    assert(after(held, rest1) == done);
}

/// Over a whole scoped call whose lookup succeeds, the table is looked up
/// exactly once and released exactly once, whether the entry call succeeds
/// or fails.
pub proof fn lemma_scoped_call_balances<T: Decode>(
    registry: usize,
    suite: SuiteId,
    entry: Entry,
    args: Seq<Value>,
    replies: Seq<ReplyView>,
)
    requires
        registry != 0,
        replies.len() >= 3,
        replies[0].succeeded(),
    ensures
        acquisitions_of(
            trace(ScopedView::<T>::initial(registry, suite, entry, args), replies),
            suite,
        ) == 1,
        releases_of(
            trace(ScopedView::<T>::initial(registry, suite, entry, args), replies),
            suite,
        ) == 1,
{
    lemma_scoped_call_releases_once::<T>(registry, suite, entry, args, replies);
    let lookup = CallView::Acquire { registry, suite };
    let invoke = CallView::Invoke {
        table: replies[0].outputs[0]->Handle_0,
        entry,
        args,
        outputs: T::template(),
    };
    let release = CallView::Release { registry, suite };
    lemma_counts_of_one(lookup, suite);
    lemma_counts_of_one(invoke, suite);
    lemma_counts_of_one(release, suite);
    lemma_counts_add(seq![lookup], seq![invoke], suite);
    lemma_counts_add(seq![lookup] + seq![invoke], seq![release], suite);
    assert(seq![lookup] + seq![invoke] + seq![release] =~= seq![lookup, invoke, release]);
}

} // verus!
