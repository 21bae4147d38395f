//! The capability registry client and the guard that owns an acquired table.
//!
//! A table is looked up by its (name, version) pair through the registry root
//! that the host supplied. A successful lookup yields a [`SuiteGuard`]; giving
//! the guard up yields the one release call that matches the lookup. A guard
//! cannot be copied: a second guard for the same table comes from a second
//! lookup.

use vstd::prelude::*;
use crate::call::{CallView, HostCall, HostReply, ReplyView};
use crate::entry::SuiteId;
use crate::error::{Error, STATUS_OK};
use crate::machine::{
    acquisitions_of, lemma_counts_add, lemma_counts_of_one, lemma_invokes_count_nothing,
    only_invokes, releases_of,
};
use crate::value::Value;

verus! {

/// The registry root reference that the host supplies at plug-in entry. It is
/// null until the host has done so.
#[derive(Clone, Copy, Debug, PartialEq, Eq, Structural, Hash)]
pub struct Registry {
    pub raw: usize,
}

impl Registry {
    /// Whether the reference is null.
    pub open spec fn null(self) -> bool {
        self.raw == 0
    }

    /// Wraps the raw reference that the host supplied.
    pub fn from_raw(raw: usize) -> (r: Registry)
        ensures
            r.raw == raw,
    {
        Registry { raw }
    }

    /// Whether the reference is null.
    pub fn is_null(&self) -> (b: bool)
        ensures
            b == self.null(),
    {
        self.raw == 0
    }

    /// The raw reference.
    pub fn as_ptr(&self) -> (raw: usize)
        ensures
            raw == self.raw,
    {
        self.raw
    }
}

/// Owns one acquired capability table: the address of the table, and the
/// registry and identifier needed to give it back.
#[derive(Debug)]
pub struct SuiteGuard {
    registry: usize,
    suite: SuiteId,
    table: usize,
}

impl SuiteGuard {
    #[verifier::type_invariant]
    spec fn has_registry(self) -> bool {
        self.registry != 0
    }

    /// The registry root through which the table was acquired.
    pub closed spec fn registry(self) -> usize {
        self.registry
    }

    /// The identifier under which the table was acquired.
    pub closed spec fn suite(self) -> SuiteId {
        self.suite
    }

    /// The address of the table.
    pub closed spec fn table(self) -> usize {
        self.table
    }

    /// Takes over a table that has been acquired through `registry` under
    /// `suite`, in the course of a larger operation. Returns `None` exactly
    /// when the registry root is null, through which nothing can have been
    /// acquired.
    pub(crate) fn adopt(registry: &Registry, suite: SuiteId, table: usize) -> (g: Option<SuiteGuard>)
        ensures
            g is Some <==> !registry.null(),
            g matches Some(guard) ==> guard.registry() == registry.raw && guard.suite() == suite
                && guard.table() == table,
    {
        if registry.raw == 0 {
            None
        } else {
            Some(SuiteGuard { registry: registry.raw, suite, table })
        }
    }

    /// The identifier under which the table was acquired.
    pub fn id(&self) -> (id: SuiteId)
        ensures
            id == self.suite(),
    {
        self.suite
    }

    /// The address of the table.
    pub fn table_ptr(&self) -> (table: usize)
        ensures
            table == self.table(),
    {
        self.table
    }

    /// The registry root through which the table was acquired. It is never
    /// null.
    pub fn registry_ref(&self) -> (r: Registry)
        ensures
            r.raw == self.registry(),
            !r.null(),
    {
        proof {
            use_type_invariant(self);
        }
        Registry { raw: self.registry }
    }

    /// Ends the guard's lifetime. The result is the one release call that is
    /// owed for the acquisition, with the registry and the (name, version)
    /// pair that the acquisition used.
    pub fn release(self) -> (c: HostCall)
        ensures
            c@ == (CallView::Release { registry: self.registry(), suite: self.suite() }),
            self.registry() != 0,
    {
        proof {
            use_type_invariant(&self);
        }
        HostCall::Release { registry: self.registry, suite: self.suite }
    }

    /// Starts an independent acquisition of the same table through the same
    /// registry. The new guard shares nothing with this one, and each is
    /// released on its own.
    pub fn reacquire(&self) -> (a: Acquire)
        ensures
            a.registry() == self.registry(),
            a.suite() == self.suite(),
    {
        proof {
            use_type_invariant(self);
        }
        Acquire { registry: self.registry, suite: self.suite }
    }
}

/// A lookup that has been found worth trying: the registry root is not null.
#[derive(Debug)]
pub struct Acquire {
    registry: usize,
    suite: SuiteId,
}

/// Whether a reply can be handed to [`Acquire::complete`]: a failed lookup
/// always can; a successful one must carry the address of the table in its
/// one output slot.
pub open spec fn names_table(reply: ReplyView) -> bool {
    reply.succeeded() ==> reply.outputs.len() == 1 && reply.outputs[0] is Handle
}

impl Acquire {
    #[verifier::type_invariant]
    spec fn has_registry(self) -> bool {
        self.registry != 0
    }

    /// The registry root that is asked.
    pub closed spec fn registry(self) -> usize {
        self.registry
    }

    /// The identifier that is looked up.
    pub closed spec fn suite(self) -> SuiteId {
        self.suite
    }

    /// Starts the lookup of `suite`. With a null registry root the lookup
    /// fails at once, and there is no call to perform.
    pub fn begin(registry: &Registry, suite: SuiteId) -> (r: Result<Acquire, Error>)
        ensures
            registry.null() ==> r == Err::<Acquire, Error>(Error::Unavailable),
            !registry.null() ==> r is Ok && r->Ok_0.registry() == registry.raw
                && r->Ok_0.suite() == suite,
    {
        if registry.raw == 0 {
            Err(Error::Unavailable)
        } else {
            Ok(Acquire { registry: registry.raw, suite })
        }
    }

    /// The lookup call. Its one output slot, zeroed, receives the address of
    /// the table.
    pub fn call(&self) -> (c: HostCall)
        ensures
            c@ == (CallView::Acquire { registry: self.registry(), suite: self.suite() }),
            self.registry() != 0,
            c@.slots_zeroed(),
    {
        proof {
            use_type_invariant(self);
        }
        HostCall::Acquire { registry: self.registry, suite: self.suite }
    }

    /// Whether `reply` can be handed to [`Acquire::complete`].
    pub fn accepts(&self, reply: &HostReply) -> (ok: bool)
        ensures
            ok == names_table(reply@),
    {
        if reply.status != STATUS_OK {
            return true;
        }
        if reply.outputs.len() != 1 {
            return false;
        }
        match reply.outputs[0] {
            Value::Handle(_) => true,
            _ => false,
        }
    }

    /// Turns the host's reply into a guard. Any status but success means that
    /// the table is unavailable; then no guard exists and no release is owed.
    pub fn complete(self, reply: &HostReply) -> (r: Result<SuiteGuard, Error>)
        requires
            names_table(reply@),
        ensures
            !reply@.succeeded() ==> r == Err::<SuiteGuard, Error>(Error::Unavailable),
            reply@.succeeded() ==> r is Ok && r->Ok_0.registry() == self.registry()
                && r->Ok_0.suite() == self.suite()
                && r->Ok_0.table() == reply@.outputs[0]->Handle_0,
    {
        proof {
            use_type_invariant(&self);
        }
        if reply.status != STATUS_OK {
            return Err(Error::Unavailable);
        }
        match reply.outputs[0] {
            Value::Handle(table) => Ok(
                SuiteGuard { registry: self.registry, suite: self.suite, table },
            ),
            _ => Err(Error::Unavailable),
        }
    }
}

/// The calls that are made on behalf of one guard, from the lookup that may
/// produce it to the end of its lifetime: the lookup; and, if the lookup
/// succeeded, the calls made through the table while the guard lived,
/// followed by the release that ends the lifetime. A lookup that failed
/// produced no guard, and nothing follows it.
pub open spec fn lifetime(
    registry: usize,
    suite: SuiteId,
    reply: ReplyView,
    uses: Seq<CallView>,
) -> Seq<CallView> {
    let lookup = seq![CallView::Acquire { registry, suite }];
    if reply.succeeded() {
        lookup + uses + seq![CallView::Release { registry, suite }]
    } else {
        lookup
    }
}

/// Over the lifetime of a guard there is exactly one lookup of its table. If
/// the lookup succeeded there is exactly one release of that table, however
/// many calls were made through it, and the release is the last call; if the
/// lookup failed there is none. Every release of the lifetime names the
/// registry and the (name, version) pair of the lookup.
pub proof fn lemma_guard_released_exactly_once(
    registry: usize,
    suite: SuiteId,
    reply: ReplyView,
    uses: Seq<CallView>,
)
    requires
        only_invokes(uses),
    ensures
        acquisitions_of(lifetime(registry, suite, reply, uses), suite) == 1,
        releases_of(lifetime(registry, suite, reply, uses), suite) == if reply.succeeded() {
            1nat
        } else {
            0nat
        },
        reply.succeeded() ==> lifetime(registry, suite, reply, uses).last() == (CallView::Release {
            registry,
            suite,
        }),
        forall|i: int|
            0 <= i < lifetime(registry, suite, reply, uses).len() && (#[trigger] lifetime(
                registry,
                suite,
                reply,
                uses,
            )[i]) is Release ==> lifetime(registry, suite, reply, uses)[i] == (CallView::Release {
                registry,
                suite,
            }),
{
    let lookup = seq![CallView::Acquire { registry, suite }];
    let release = seq![CallView::Release { registry, suite }];
    lemma_counts_of_one(CallView::Acquire { registry, suite }, suite);
    lemma_counts_of_one(CallView::Release { registry, suite }, suite);
    lemma_invokes_count_nothing(uses, suite);
    lemma_counts_add(lookup, uses, suite);
    lemma_counts_add(lookup + uses, release, suite);
}

} // verus!
