//! The two messages of the protocol: the call that the library asks for, and
//! the reply that the host gave.

use vstd::prelude::*;
use crate::entry::{Entry, SuiteId};
use crate::value::{all_zero, copy_values, Value};

verus! {

/// One foreign call, described as plain data.
#[derive(Debug, PartialEq, Eq)]
pub enum HostCall {
    /// Look up a capability table in the registry. The host answers with a
    /// status code and, in one output slot, the address of the table.
    Acquire { registry: usize, suite: SuiteId },
    /// Give a capability table back to the registry.
    Release { registry: usize, suite: SuiteId },
    /// Call one entry of an acquired table. `args` are the entry's input
    /// parameters in the order of its signature; `outputs` are its output
    /// parameters in that order, each passed by address and holding the
    /// values that the host finds in it.
    Invoke { table: usize, entry: Entry, args: Vec<Value>, outputs: Vec<Value> },
}

/// The mathematical content of a [`HostCall`].
pub enum CallView {
    Acquire { registry: usize, suite: SuiteId },
    Release { registry: usize, suite: SuiteId },
    Invoke { table: usize, entry: Entry, args: Seq<Value>, outputs: Seq<Value> },
}

impl View for HostCall {
    type V = CallView;

    open spec fn view(&self) -> CallView {
        match *self {
            HostCall::Acquire { registry, suite } => CallView::Acquire { registry, suite },
            HostCall::Release { registry, suite } => CallView::Release { registry, suite },
            HostCall::Invoke { table, entry, args, outputs } => CallView::Invoke {
                table,
                entry,
                args: args@,
                outputs: outputs@,
            },
        }
    }
}

impl CallView {
    /// The output slots that the call hands to the host.
    pub open spec fn slots(self) -> Seq<Value> {
        match self {
            CallView::Acquire { .. } => seq![Value::Handle(0)],
            CallView::Release { .. } => Seq::<Value>::empty(),
            CallView::Invoke { outputs, .. } => outputs,
        }
    }

    /// Whether every output slot of the call holds zero before the host runs.
    pub open spec fn slots_zeroed(self) -> bool {
        all_zero(self.slots())
    }

    /// Whether the call gives the named table back.
    pub open spec fn releases(self, id: SuiteId) -> bool {
        self matches CallView::Release { suite, .. } && suite == id
    }

    /// Whether the call looks the named table up.
    pub open spec fn acquires(self, id: SuiteId) -> bool {
        self matches CallView::Acquire { suite, .. } && suite == id
    }
}

/// What the host answered: the status code it returned and the content of the
/// output slots after the call.
#[derive(Debug, PartialEq, Eq)]
pub struct HostReply {
    pub status: i32,
    pub outputs: Vec<Value>,
}

/// The mathematical content of a [`HostReply`].
pub struct ReplyView {
    pub status: i32,
    pub outputs: Seq<Value>,
}

impl View for HostReply {
    type V = ReplyView;

    open spec fn view(&self) -> ReplyView {
        ReplyView { status: self.status, outputs: self.outputs@ }
    }
}

impl ReplyView {
    /// Whether the host reported success.
    pub open spec fn succeeded(self) -> bool {
        self.status == crate::error::STATUS_OK
    }
}

impl HostReply {
    /// A reply that carries only a status code.
    pub fn status_only(status: i32) -> (r: HostReply)
        ensures
            r@ == (ReplyView { status, outputs: Seq::<Value>::empty() }),
    {
        HostReply { status, outputs: Vec::new() }
    }

    /// A reply with its output slots.
    pub fn new(status: i32, outputs: Vec<Value>) -> (r: HostReply)
        ensures
            r@ == (ReplyView { status, outputs: outputs@ }),
    {
        HostReply { status, outputs }
    }

    /// Whether the host reported success.
    pub fn succeeded(&self) -> (ok: bool)
        ensures
            ok == self@.succeeded(),
    {
        self.status == crate::error::STATUS_OK
    }
}

impl HostCall {
    /// A copy of this call.
    pub fn duplicate(&self) -> (c: HostCall)
        ensures
            c@ == self@,
    {
        match self {
            HostCall::Acquire { registry, suite } => HostCall::Acquire {
                registry: *registry,
                suite: *suite,
            },
            HostCall::Release { registry, suite } => HostCall::Release {
                registry: *registry,
                suite: *suite,
            },
            HostCall::Invoke { table, entry, args, outputs } => HostCall::Invoke {
                table: *table,
                entry: *entry,
                args: copy_values(args),
                outputs: copy_values(outputs),
            },
        }
    }
}

} // verus!
