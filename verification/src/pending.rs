//! The typed call adapter: one call of one table entry, and what its reply
//! means.
//!
//! A call has one of three shapes, fixed by the entry's published signature.
//! An action call has no output slot and its result type is `()`. A
//! single-output call has the slots of one result type. A double-output call
//! has the slots of a pair. In every shape the slots are zeroed before the
//! host runs, and a nonzero status code yields the failure that carries it,
//! whatever the slots then hold.

use vstd::prelude::*;
use core::marker::PhantomData;
use crate::buffers::{all_of_kind, bytes_of, check_kind, collect_bytes};
use crate::call::{CallView, HostCall, HostReply, ReplyView};
use crate::decode::{fits, Decode};
use crate::entry::Entry;
use crate::error::{Error, STATUS_OK};
use crate::value::{all_zero, push_zeros, zeros_of, Kind, Value};

verus! {

/// Whether a reply can be turned into a result of type `T`: a failed call
/// always can; a successful one must have filled the offered slots with a
/// value of `T`.
pub open spec fn answers<T: Decode>(reply: ReplyView) -> bool {
    reply.succeeded() ==> fits::<T>(reply.outputs)
}

/// The result that a reply stands for.
pub open spec fn outcome<T: Decode>(reply: ReplyView) -> Result<T, Error> {
    if reply.succeeded() {
        Ok(T::read(reply.outputs))
    } else {
        Err(Error::Host(reply.status))
    }
}

/// One call of a table entry whose result, once the host has answered, is a
/// `T`.
pub struct Pending<T: Decode> {
    call: HostCall,
    marker: PhantomData<T>,
}

impl<T: Decode> Pending<T> {
    #[verifier::type_invariant]
    spec fn offers_template(self) -> bool {
        self.call@ matches CallView::Invoke { outputs, .. } && outputs == T::template()
    }

    /// The call that is to be performed.
    pub closed spec fn request(self) -> CallView {
        self.call@
    }

    /// Prepares the call of `entry` in the table at `table` with `args`,
    /// offering zeroed output slots for one `T`.
    pub fn new(table: usize, entry: Entry, args: Vec<Value>) -> (p: Self)
        ensures
            p.request() == (CallView::Invoke {
                table,
                entry,
                args: args@,
                outputs: T::template(),
            }),
    {
        let mut outputs: Vec<Value> = Vec::new();
        T::offer(&mut outputs);
        proof {
            assert(outputs@ =~= T::template());
        }
        Pending { call: HostCall::Invoke { table, entry, args, outputs }, marker: PhantomData }
    }

    /// The call that is to be performed. Its output slots are the zeroed
    /// template of `T`.
    pub fn call(&self) -> (c: HostCall)
        ensures
            c@ == self.request(),
            c@ is Invoke,
            c@.slots() == T::template(),
            c@.slots_zeroed(),
    {
        proof {
            use_type_invariant(self);
            T::template_zeroed();
        }
        self.call.duplicate()
    }

    /// Whether `reply` can be handed to [`Pending::complete`].
    pub fn accepts(&self, reply: &HostReply) -> (ok: bool)
        ensures
            ok == answers::<T>(reply@),
    {
        proof {
            use_type_invariant(self);
        }
        if reply.status != STATUS_OK {
            return true;
        }
        let width: usize = match &self.call {
            HostCall::Invoke { outputs, .. } => outputs.len(),
            _ => 0,
        };
        if reply.outputs.len() != width {
            return false;
        }
        proof {
            assert(reply.outputs@.subrange(0, T::template().len() as int) =~= reply.outputs@);
        }
        T::decode(&reply.outputs, 0).is_some()
    }

    /// Turns the host's reply into the result of the call: the decoded slots
    /// if the host reported success, and otherwise the failure that carries
    /// the status code, whatever the slots hold.
    pub fn complete(self, reply: &HostReply) -> (r: Result<T, Error>)
        requires
            answers::<T>(reply@),
        ensures
            r == outcome::<T>(reply@),
    {
        if reply.status != STATUS_OK {
            return Err(Error::Host(reply.status));
        }
        proof {
            assert(reply.outputs@.subrange(0, T::template().len() as int) =~= reply.outputs@);
        }
        Ok(T::decode(&reply.outputs, 0).unwrap())
    }

    /// Concludes a call whose failure cannot be recovered from, such as the
    /// disposal of an owned handle: the host must have reported success.
    /// The caller tests the reply with [`HostReply::succeeded`] and treats
    /// anything else as fatal.
    pub fn conclude(self, reply: &HostReply) -> (v: T)
        requires
            reply@.succeeded(),
            answers::<T>(reply@),
        ensures
            v == T::read(reply@.outputs),
    {
        proof {
            assert(reply.outputs@.subrange(0, T::template().len() as int) =~= reply.outputs@);
        }
        T::decode(&reply.outputs, 0).unwrap()
    }
}

/// A structure of the host that the library carries as the bytes of its
/// memory, without reading them.
pub trait Stored: Sized {
    /// The bytes of the structure.
    spec fn bytes(&self) -> Seq<u8>;

    /// Wraps the bytes that the host left in the output slot.
    fn wrap(bytes: Vec<u8>) -> (v: Self)
        ensures
            v.bytes() == bytes@,
    ;
}

/// One call of a table entry that fills a structure which the library does
/// not read. The output slot is offered as the bytes of the structure, every
/// one of them zero, so that a byte which the host does not write stays
/// zero.
pub struct Filling<T: Stored> {
    call: HostCall,
    marker: PhantomData<T>,
}

/// Whether a result is what a reply stands for when the call fills a
/// structure: the bytes that the slot holds after a call that succeeded, and
/// otherwise the failure that carries the status code.
pub open spec fn filled<T: Stored>(r: Result<T, Error>, reply: ReplyView) -> bool {
    match r {
        Ok(v) => reply.succeeded() && v.bytes() == bytes_of(reply.outputs),
        Err(e) => !reply.succeeded() && e == Error::Host(reply.status),
    }
}

impl<T: Stored> Filling<T> {
    #[verifier::type_invariant]
    spec fn offers_zeroed_bytes(self) -> bool {
        self.call@ matches CallView::Invoke { outputs, .. } && outputs == zeros_of(
            Kind::Byte,
            outputs.len(),
        )
    }

    /// The call that is to be performed.
    pub closed spec fn request(self) -> CallView {
        self.call@
    }

    /// Whether `reply` can be handed to [`Filling::complete`]: a failed call
    /// always can; a successful one must have left as many bytes in the slot
    /// as were offered.
    pub open spec fn answered_by(self, reply: ReplyView) -> bool {
        reply.succeeded() ==> {
            &&& reply.outputs.len() == self.request().slots().len()
            &&& all_of_kind(reply.outputs, 0, reply.outputs.len() as int, Kind::Byte)
        }
    }

    /// Prepares the call of `entry` in the table at `table` with `args`,
    /// offering `size` zeroed bytes: the size of the structure as the
    /// host's interface declares it.
    pub fn new(table: usize, entry: Entry, args: Vec<Value>, size: usize) -> (f: Self)
        ensures
            f.request() == (CallView::Invoke {
                table,
                entry,
                args: args@,
                outputs: zeros_of(Kind::Byte, size as nat),
            }),
    {
        let mut outputs: Vec<Value> = Vec::new();
        push_zeros(&mut outputs, Kind::Byte, size);
        proof {
            assert(outputs@ =~= zeros_of(Kind::Byte, size as nat));
        }
        Filling { call: HostCall::Invoke { table, entry, args, outputs }, marker: PhantomData }
    }

    /// The call that is to be performed. Every byte of its output slot is
    /// zero.
    pub fn call(&self) -> (c: HostCall)
        ensures
            c@ == self.request(),
            c@ is Invoke,
            c@.slots_zeroed(),
    {
        proof {
            use_type_invariant(self);
        }
        self.call.duplicate()
    }

    /// Whether `reply` can be handed to [`Filling::complete`].
    pub fn accepts(&self, reply: &HostReply) -> (ok: bool)
        ensures
            ok == self.answered_by(reply@),
    {
        proof {
            use_type_invariant(self);
        }
        if reply.status != STATUS_OK {
            return true;
        }
        let size: usize = match &self.call {
            HostCall::Invoke { outputs, .. } => outputs.len(),
            _ => 0,
        };
        if reply.outputs.len() != size {
            return false;
        }
        check_kind(&reply.outputs, 0, reply.outputs.len(), Kind::Byte)
    }

    /// Turns the host's reply into the result of the call: the bytes that
    /// the slot holds if the host reported success, and otherwise the
    /// failure that carries the status code, whatever the slot holds.
    pub fn complete(self, reply: &HostReply) -> (r: Result<T, Error>)
        requires
            self.answered_by(reply@),
        ensures
            filled::<T>(r, reply@),
    {
        if reply.status != STATUS_OK {
            Err(Error::Host(reply.status))
        } else {
            let bytes = collect_bytes(&reply.outputs, 0, reply.outputs.len());
            proof {
                assert(reply.outputs@.subrange(0, reply.outputs@.len() as int)
                    =~= reply.outputs@);
            }
            Ok(T::wrap(bytes))
        }
    }
}

/// One call of a table entry that reports no status: what the entry returns
/// is the answer itself, a size in bytes.
pub struct Query {
    call: HostCall,
}

impl Query {
    #[verifier::type_invariant]
    spec fn offers_nothing(self) -> bool {
        self.call@ matches CallView::Invoke { outputs, .. } && outputs.len() == 0
    }

    /// The call that is to be performed.
    pub closed spec fn request(self) -> CallView {
        self.call@
    }

    /// Prepares the call of `entry` in the table at `table` with `args`.
    pub fn new(table: usize, entry: Entry, args: Vec<Value>) -> (q: Self)
        ensures
            q.request() == (CallView::Invoke {
                table,
                entry,
                args: args@,
                outputs: Seq::<Value>::empty(),
            }),
    {
        let outputs: Vec<Value> = Vec::new();
        proof {
            assert(outputs@ =~= Seq::<Value>::empty());
        }
        Query { call: HostCall::Invoke { table, entry, args, outputs } }
    }

    /// The call that is to be performed.
    pub fn call(&self) -> (c: HostCall)
        ensures
            c@ == self.request(),
    {
        self.call.duplicate()
    }

    /// The size that the entry returned, reinterpreted as a machine word.
    pub fn complete(self, reply: &HostReply) -> (size: usize)
        ensures
            size == reply@.status as usize,
    {
        crate::decode::count_of(reply.status)
    }
}

/// A failed call never yields a value, and a successful one yields exactly
/// what the slots hold: the zeroes that the slots started with are only ever
/// seen if the host left them there and reported success.
pub proof fn lemma_failure_surfaces_no_value<T: Decode>(reply: ReplyView)
    ensures
        !reply.succeeded() ==> outcome::<T>(reply) == Err::<T, Error>(Error::Host(reply.status)),
        reply.succeeded() ==> outcome::<T>(reply) == Ok::<T, Error>(T::read(reply.outputs)),
        all_zero(T::template()),
{
    T::template_zeroed();
}

} // verus!
