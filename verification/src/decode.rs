//! How typed results are read out of the output slots of a call.
//!
//! A type that implements [`Decode`] says which zeroed slots a call must offer
//! to the host for one value of the type, which slot contents stand for a
//! value, and which value that is.

use vstd::prelude::*;
use crate::value::{all_zero, Value};

verus! {

/// A result type of a foreign call.
pub trait Decode: Sized {
    /// The output slots for one value of this type, as they are handed to the
    /// host: one entry per field, each holding zero.
    spec fn template() -> Seq<Value>;

    /// Whether filled slots stand for a value of this type. Only asked of
    /// lists as long as the template.
    spec fn readable(slots: Seq<Value>) -> bool;

    /// The value that readable slots stand for.
    spec fn read(slots: Seq<Value>) -> Self;

    /// Every slot of the template holds zero.
    proof fn template_zeroed()
        ensures
            all_zero(Self::template()),
    ;

    /// The number of slots of the template.
    fn width() -> (n: usize)
        requires
            Self::template().len() <= usize::MAX,
        ensures
            n == Self::template().len(),
    ;

    /// Appends the zeroed template to the output slots of a call.
    fn offer(out: &mut Vec<Value>)
        ensures
            final(out)@ == old(out)@ + Self::template(),
    ;

    /// Reads a value from the slots that start at `at`. Returns `None` exactly
    /// when those slots do not stand for a value of this type.
    fn decode(slots: &Vec<Value>, at: usize) -> (r: Option<Self>)
        requires
            at + Self::template().len() <= slots@.len(),
        ensures
            r.is_some() == Self::readable(
                slots@.subrange(at as int, at + Self::template().len()),
            ),
            r matches Some(v) ==> v == Self::read(
                slots@.subrange(at as int, at + Self::template().len()),
            ),
    ;
}

/// Whether filled slots answer a call that offered the template of `T`.
pub open spec fn fits<T: Decode>(slots: Seq<Value>) -> bool {
    slots.len() == T::template().len() && T::readable(slots)
}

impl Decode for () {
    open spec fn template() -> Seq<Value> {
        Seq::<Value>::empty()
    }

    open spec fn readable(slots: Seq<Value>) -> bool {
        true
    }

    open spec fn read(slots: Seq<Value>) -> () {
        ()
    }

    proof fn template_zeroed() {
    }

    fn width() -> (n: usize) {
        0
    }

    fn offer(out: &mut Vec<Value>) {
        proof {
            assert(out@ =~= old(out)@ + Self::template());
        }
    }

    fn decode(slots: &Vec<Value>, at: usize) -> (r: Option<()>) {
        Some(())
    }
}

/// A signed 32-bit integer, read from one integer slot.
impl Decode for i32 {
    open spec fn template() -> Seq<Value> {
        seq![Value::Int(0)]
    }

    open spec fn readable(slots: Seq<Value>) -> bool {
        slots[0] is Int
    }

    open spec fn read(slots: Seq<Value>) -> i32 {
        slots[0]->Int_0
    }

    proof fn template_zeroed() {
    }

    fn width() -> (n: usize) {
        1
    }

    fn offer(out: &mut Vec<Value>) {
        out.push(Value::Int(0));
        proof {
            assert(out@ =~= old(out)@ + Self::template());
        }
    }

    fn decode(slots: &Vec<Value>, at: usize) -> (r: Option<i32>) {
        match slots[at] {
            Value::Int(v) => Some(v),
            _ => None,
        }
    }
}

/// A signed 64-bit integer, read from one long slot.
impl Decode for i64 {
    open spec fn template() -> Seq<Value> {
        seq![Value::Long(0)]
    }

    open spec fn readable(slots: Seq<Value>) -> bool {
        slots[0] is Long
    }

    open spec fn read(slots: Seq<Value>) -> i64 {
        slots[0]->Long_0
    }

    proof fn template_zeroed() {
    }

    fn width() -> (n: usize) {
        1
    }

    fn offer(out: &mut Vec<Value>) {
        out.push(Value::Long(0));
        proof {
            assert(out@ =~= old(out)@ + Self::template());
        }
    }

    fn decode(slots: &Vec<Value>, at: usize) -> (r: Option<i64>) {
        match slots[at] {
            Value::Long(v) => Some(v),
            _ => None,
        }
    }
}

/// An unsigned 32-bit integer, read from one word slot.
impl Decode for u32 {
    open spec fn template() -> Seq<Value> {
        seq![Value::Word(0)]
    }

    open spec fn readable(slots: Seq<Value>) -> bool {
        slots[0] is Word
    }

    open spec fn read(slots: Seq<Value>) -> u32 {
        slots[0]->Word_0
    }

    proof fn template_zeroed() {
    }

    fn width() -> (n: usize) {
        1
    }

    fn offer(out: &mut Vec<Value>) {
        out.push(Value::Word(0));
        proof {
            assert(out@ =~= old(out)@ + Self::template());
        }
    }

    fn decode(slots: &Vec<Value>, at: usize) -> (r: Option<u32>) {
        match slots[at] {
            Value::Word(v) => Some(v),
            _ => None,
        }
    }
}

/// The bit pattern of a 64-bit floating-point number, read from one double
/// slot.
impl Decode for u64 {
    open spec fn template() -> Seq<Value> {
        seq![Value::Double(0)]
    }

    open spec fn readable(slots: Seq<Value>) -> bool {
        slots[0] is Double
    }

    open spec fn read(slots: Seq<Value>) -> u64 {
        slots[0]->Double_0
    }

    proof fn template_zeroed() {
    }

    fn width() -> (n: usize) {
        1
    }

    fn offer(out: &mut Vec<Value>) {
        out.push(Value::Double(0));
        proof {
            assert(out@ =~= old(out)@ + Self::template());
        }
    }

    fn decode(slots: &Vec<Value>, at: usize) -> (r: Option<u64>) {
        match slots[at] {
            Value::Double(v) => Some(v),
            _ => None,
        }
    }
}

/// A truth value, read from one byte slot: any nonzero byte is true.
impl Decode for bool {
    open spec fn template() -> Seq<Value> {
        seq![Value::Byte(0)]
    }

    open spec fn readable(slots: Seq<Value>) -> bool {
        slots[0] is Byte
    }

    open spec fn read(slots: Seq<Value>) -> bool {
        slots[0]->Byte_0 != 0
    }

    proof fn template_zeroed() {
    }

    fn width() -> (n: usize) {
        1
    }

    fn offer(out: &mut Vec<Value>) {
        out.push(Value::Byte(0));
        proof {
            assert(out@ =~= old(out)@ + Self::template());
        }
    }

    fn decode(slots: &Vec<Value>, at: usize) -> (r: Option<bool>) {
        match slots[at] {
            Value::Byte(v) => Some(v != 0),
            _ => None,
        }
    }
}

/// A count, read from one integer slot. The host's signed integer is
/// reinterpreted as an unsigned machine word, as a cast does.
impl Decode for usize {
    open spec fn template() -> Seq<Value> {
        seq![Value::Int(0)]
    }

    open spec fn readable(slots: Seq<Value>) -> bool {
        slots[0] is Int
    }

    open spec fn read(slots: Seq<Value>) -> usize {
        slots[0]->Int_0 as usize
    }

    proof fn template_zeroed() {
    }

    fn width() -> (n: usize) {
        1
    }

    fn offer(out: &mut Vec<Value>) {
        out.push(Value::Int(0));
        proof {
            assert(out@ =~= old(out)@ + Self::template());
        }
    }

    fn decode(slots: &Vec<Value>, at: usize) -> (r: Option<usize>) {
        match slots[at] {
            Value::Int(v) => Some(count_of(v)),
            _ => None,
        }
    }
}

/// The one zeroed slot in which the host returns a handle.
pub open spec fn handle_template() -> Seq<Value> {
    seq![Value::Handle(0)]
}

/// Appends the zeroed slot for one handle.
pub fn offer_handle(out: &mut Vec<Value>)
    ensures
        final(out)@ == old(out)@ + handle_template(),
{
    out.push(Value::Handle(0));
    proof {
        assert(out@ =~= old(out)@ + handle_template());
    }
}

/// Reads the raw handle in the slot at `at`, if the slot holds one.
pub fn decode_handle(slots: &Vec<Value>, at: usize) -> (r: Option<usize>)
    requires
        at < slots@.len(),
    ensures
        r == match slots@[at as int] {
            Value::Handle(raw) => Some(raw),
            _ => None::<usize>,
        },
{
    match slots[at] {
        Value::Handle(raw) => Some(raw),
        _ => None,
    }
}

/// Reinterprets a signed 32-bit integer of the host as a machine word.
pub fn count_of(raw: i32) -> (n: usize)
    ensures
        n == raw as usize,
        raw >= 0 ==> n == raw,
{
    #[verifier::truncate]
    let n: usize = raw as usize;
    n
}

/// Reinterprets an unsigned 32-bit integer as the host's signed integer, as
/// a cast does.
pub fn signed_of(raw: u32) -> (n: i32)
    ensures
        n == raw as i32,
{
    #[verifier::truncate]
    let n: i32 = raw as i32;
    n
}

/// Narrows a machine word to the host's signed integer, as a cast does.
pub fn index_of(raw: usize) -> (n: i32)
    ensures
        n == raw as i32,
{
    #[verifier::truncate]
    let n: i32 = raw as i32;
    n
}

/// Two results of one call: the slots of the first, then those of the second.
impl<A: Decode, B: Decode> Decode for (A, B) {
    open spec fn template() -> Seq<Value> {
        A::template() + B::template()
    }

    open spec fn readable(slots: Seq<Value>) -> bool {
        &&& A::readable(slots.subrange(0, A::template().len() as int))
        &&& B::readable(
            slots.subrange(
                A::template().len() as int,
                (A::template().len() + B::template().len()) as int,
            ),
        )
    }

    open spec fn read(slots: Seq<Value>) -> (A, B) {
        (
            A::read(slots.subrange(0, A::template().len() as int)),
            B::read(
                slots.subrange(
                    A::template().len() as int,
                    (A::template().len() + B::template().len()) as int,
                ),
            ),
        )
    }

    proof fn template_zeroed() {
        A::template_zeroed();
        B::template_zeroed();
    }

    fn width() -> (n: usize) {
        proof {
            assert(Self::template().len() == A::template().len() + B::template().len());
        }
        let a: usize = A::width();
        let b: usize = B::width();
        a + b
    }

    fn offer(out: &mut Vec<Value>) {
        A::offer(out);
        B::offer(out);
        proof {
            assert(out@ =~= old(out)@ + Self::template());
        }
    }

    fn decode(slots: &Vec<Value>, at: usize) -> (r: Option<(A, B)>) {
        let len: usize = slots.len();
        proof {
            assert(Self::template().len() == A::template().len() + B::template().len());
            assert(A::template().len() <= len);
        }
        let a_width: usize = A::width();
        let ghost b_width = B::template().len();
        let ghost whole = slots@.subrange(at as int, at + a_width + b_width);
        proof {
            assert(whole.subrange(0, a_width as int) =~= slots@.subrange(
                at as int,
                at + a_width,
            ));
            assert(whole.subrange(a_width as int, a_width + b_width) =~= slots@.subrange(
                at + a_width,
                at + a_width + b_width,
            ));
        }
        let first = A::decode(slots, at);
        let second = B::decode(slots, at + a_width);
        match first {
            Some(a) => match second {
                Some(b) => Some((a, b)),
                None => None,
            },
            None => None,
        }
    }
}

} // verus!
