//! The plain values that cross the boundary to the host.
//!
//! Every argument and every output slot of a foreign call is one of a few
//! machine-level kinds. Floating-point numbers travel as their bit patterns
//! and structures travel field by field, so a call is fully described by a
//! list of these values.

use vstd::prelude::*;

verus! {

/// One machine-level value of a foreign call.
#[derive(Clone, Copy, Debug, PartialEq, Eq, Structural, Hash)]
pub enum Value {
    /// An opaque handle issued by the host, or an address owned by the caller.
    Handle(usize),
    /// A signed 16-bit integer.
    Short(i16),
    /// A signed 32-bit integer.
    Int(i32),
    /// An unsigned 32-bit integer.
    Word(u32),
    /// A signed 64-bit integer.
    Long(i64),
    /// A one-byte truth value as the host stores it.
    Byte(u8),
    /// The bit pattern of a 32-bit floating-point number.
    Single(u32),
    /// The bit pattern of a 64-bit floating-point number.
    Double(u64),
}

/// The kind of a [`Value`], without its content.
#[derive(Clone, Copy, Debug, PartialEq, Eq, Structural, Hash)]
pub enum Kind {
    Handle,
    Short,
    Int,
    Word,
    Long,
    Byte,
    Single,
    Double,
}

impl Value {
    /// The kind of this value.
    pub open spec fn kind_of(self) -> Kind {
        match self {
            Value::Handle(_) => Kind::Handle,
            Value::Short(_) => Kind::Short,
            Value::Int(_) => Kind::Int,
            Value::Word(_) => Kind::Word,
            Value::Long(_) => Kind::Long,
            Value::Byte(_) => Kind::Byte,
            Value::Single(_) => Kind::Single,
            Value::Double(_) => Kind::Double,
        }
    }

    /// Whether every bit of this value is zero.
    pub open spec fn is_zero(self) -> bool {
        match self {
            Value::Handle(v) => v == 0,
            Value::Short(v) => v == 0,
            Value::Int(v) => v == 0,
            Value::Word(v) => v == 0,
            Value::Long(v) => v == 0,
            Value::Byte(v) => v == 0,
            Value::Single(v) => v == 0,
            Value::Double(v) => v == 0,
        }
    }

    /// The all-zero value of a kind.
    pub open spec fn zero_of(kind: Kind) -> Value {
        match kind {
            Kind::Handle => Value::Handle(0),
            Kind::Short => Value::Short(0),
            Kind::Int => Value::Int(0),
            Kind::Word => Value::Word(0),
            Kind::Long => Value::Long(0),
            Kind::Byte => Value::Byte(0),
            Kind::Single => Value::Single(0),
            Kind::Double => Value::Double(0),
        }
    }

    /// The kind of this value.
    pub fn kind(&self) -> (k: Kind)
        ensures
            k == self.kind_of(),
    {
        match self {
            Value::Handle(_) => Kind::Handle,
            Value::Short(_) => Kind::Short,
            Value::Int(_) => Kind::Int,
            Value::Word(_) => Kind::Word,
            Value::Long(_) => Kind::Long,
            Value::Byte(_) => Kind::Byte,
            Value::Single(_) => Kind::Single,
            Value::Double(_) => Kind::Double,
        }
    }

    /// The all-zero value of a kind: what an output slot holds before the host
    /// is called.
    pub fn zero(kind: Kind) -> (v: Value)
        ensures
            v == Value::zero_of(kind),
            v.is_zero(),
            v.kind_of() == kind,
    {
        match kind {
            Kind::Handle => Value::Handle(0),
            Kind::Short => Value::Short(0),
            Kind::Int => Value::Int(0),
            Kind::Word => Value::Word(0),
            Kind::Long => Value::Long(0),
            Kind::Byte => Value::Byte(0),
            Kind::Single => Value::Single(0),
            Kind::Double => Value::Double(0),
        }
    }

    /// The host's one-byte encoding of a truth value.
    pub open spec fn flag_of(flag: bool) -> Value {
        Value::Byte(if flag { 1u8 } else { 0u8 })
    }

    /// Encodes a truth value as the host expects it.
    pub fn flag(flag: bool) -> (v: Value)
        ensures
            v == Value::flag_of(flag),
    {
        if flag {
            Value::Byte(1)
        } else {
            Value::Byte(0)
        }
    }

    /// The host's integer encoding of a truth value, where it stores one in
    /// 32 bits.
    pub open spec fn truth_of(flag: bool) -> Value {
        Value::Int(if flag { 1i32 } else { 0i32 })
    }

    /// Encodes a truth value as a 32-bit integer.
    pub fn truth(flag: bool) -> (v: Value)
        ensures
            v == Value::truth_of(flag),
    {
        if flag {
            Value::Int(1)
        } else {
            Value::Int(0)
        }
    }
}

/// Whether every value of a list is zero.
pub open spec fn all_zero(values: Seq<Value>) -> bool {
    forall|i: int| 0 <= i < values.len() ==> (#[trigger] values[i]).is_zero()
}

/// A list of `count` zeroed values of one kind.
pub open spec fn zeros_of(kind: Kind, count: nat) -> Seq<Value> {
    Seq::new(count, |i: int| Value::zero_of(kind))
}

/// Appends `count` zeroed values of one kind: the output slots of a buffer
/// that the host is to fill.
pub fn push_zeros(out: &mut Vec<Value>, kind: Kind, count: usize)
    ensures
        final(out)@ == old(out)@ + zeros_of(kind, count as nat),
{
    let mut i: usize = 0;
    while i < count
        invariant
            i <= count,
            out@ == old(out)@ + zeros_of(kind, i as nat),
        decreases count - i,
    {
        out.push(Value::zero(kind));
        i = i + 1;
        proof {
            assert(out@ =~= old(out)@ + zeros_of(kind, i as nat));
        }
    }
}

/// Copies a list of values.
pub fn copy_values(values: &Vec<Value>) -> (copy: Vec<Value>)
    ensures
        copy@ == values@,
{
    let mut copy: Vec<Value> = Vec::new();
    let mut i: usize = 0;
    while i < values.len()
        invariant
            i <= values@.len(),
            copy@ == values@.subrange(0, i as int),
        decreases values@.len() - i,
    {
        copy.push(values[i]);
        i = i + 1;
        proof {
            assert(copy@ =~= values@.subrange(0, i as int));
        }
    }
    proof {
        assert(copy@ =~= values@);
    }
    copy
}

} // verus!
