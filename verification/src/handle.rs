//! Borrowed handles: opaque values that the host issues for the duration of
//! a query or a traversal.
//!
//! A borrowed handle is a plain carrier of the raw value. It compares and
//! hashes by that value, and giving it up calls nothing.

use vstd::prelude::*;
use crate::decode::{decode_handle, handle_template, offer_handle, Decode};
use crate::value::Value;

verus! {

/// A borrowed handle to a layer of a composition.
#[derive(Clone, Copy, Debug, PartialEq, Eq, Structural, Hash)]
pub struct LayerHandle {
    pub raw: usize,
}

impl LayerHandle {
    /// Wraps the raw value that the host issued.
    pub fn from_raw(raw: usize) -> (h: Self)
        ensures
            h.raw == raw,
    {
        LayerHandle { raw }
    }

    /// The raw value, as the host takes it.
    pub fn as_ptr(&self) -> (raw: usize)
        ensures
            raw == self.raw,
    {
        self.raw
    }
}

impl Decode for LayerHandle {
    open spec fn template() -> Seq<Value> {
        handle_template()
    }

    open spec fn readable(slots: Seq<Value>) -> bool {
        slots[0] is Handle
    }

    open spec fn read(slots: Seq<Value>) -> Self {
        LayerHandle { raw: slots[0]->Handle_0 }
    }

    proof fn template_zeroed() {
    }

    fn width() -> (n: usize) {
        1
    }

    fn offer(out: &mut Vec<Value>) {
        offer_handle(out);
    }

    fn decode(slots: &Vec<Value>, at: usize) -> (r: Option<Self>) {
        match decode_handle(slots, at) {
            Some(raw) => Some(LayerHandle { raw }),
            None => None,
        }
    }
}

/// A borrowed handle to a composition.
#[derive(Clone, Copy, Debug, PartialEq, Eq, Structural, Hash)]
pub struct CompHandle {
    pub raw: usize,
}

impl CompHandle {
    /// Wraps the raw value that the host issued.
    pub fn from_raw(raw: usize) -> (h: Self)
        ensures
            h.raw == raw,
    {
        CompHandle { raw }
    }

    /// The raw value, as the host takes it.
    pub fn as_ptr(&self) -> (raw: usize)
        ensures
            raw == self.raw,
    {
        self.raw
    }
}

/// A borrowed handle to the render context of the current render request.
#[derive(Clone, Copy, Debug, PartialEq, Eq, Structural, Hash)]
pub struct RenderContextHandle {
    pub raw: usize,
}

impl RenderContextHandle {
    /// Wraps the raw value that the host issued.
    pub fn from_raw(raw: usize) -> (h: Self)
        ensures
            h.raw == raw,
    {
        RenderContextHandle { raw }
    }

    /// The raw value, as the host takes it.
    pub fn as_ptr(&self) -> (raw: usize)
        ensures
            raw == self.raw,
    {
        self.raw
    }
}

/// A borrowed handle to the input block of the current render request.
#[derive(Clone, Copy, Debug, PartialEq, Eq, Structural, Hash)]
pub struct InDataHandle {
    pub raw: usize,
}

impl InDataHandle {
    /// Wraps the raw value that the host issued.
    pub fn from_raw(raw: usize) -> (h: Self)
        ensures
            h.raw == raw,
    {
        InDataHandle { raw }
    }

    /// The raw value, as the host takes it.
    pub fn as_ptr(&self) -> (raw: usize)
        ensures
            raw == self.raw,
    {
        self.raw
    }
}

/// A borrowed handle to the supplier of drawing objects of a drawing context.
#[derive(Clone, Copy, Debug, PartialEq, Eq, Structural, Hash)]
pub struct SupplierRef {
    pub raw: usize,
}

impl SupplierRef {
    /// Wraps the raw value that the host issued.
    pub fn from_raw(raw: usize) -> (h: Self)
        ensures
            h.raw == raw,
    {
        SupplierRef { raw }
    }

    /// The raw value, as the host takes it.
    pub fn as_ptr(&self) -> (raw: usize)
        ensures
            raw == self.raw,
    {
        self.raw
    }
}

impl Decode for SupplierRef {
    open spec fn template() -> Seq<Value> {
        handle_template()
    }

    open spec fn readable(slots: Seq<Value>) -> bool {
        slots[0] is Handle
    }

    open spec fn read(slots: Seq<Value>) -> Self {
        SupplierRef { raw: slots[0]->Handle_0 }
    }

    proof fn template_zeroed() {
    }

    fn width() -> (n: usize) {
        1
    }

    fn offer(out: &mut Vec<Value>) {
        offer_handle(out);
    }

    fn decode(slots: &Vec<Value>, at: usize) -> (r: Option<Self>) {
        match decode_handle(slots, at) {
            Some(raw) => Some(SupplierRef { raw }),
            None => None,
        }
    }
}

/// A borrowed handle to the surface of a drawing context.
#[derive(Clone, Copy, Debug, PartialEq, Eq, Structural, Hash)]
pub struct SurfaceRef {
    pub raw: usize,
}

impl SurfaceRef {
    /// Wraps the raw value that the host issued.
    pub fn from_raw(raw: usize) -> (h: Self)
        ensures
            h.raw == raw,
    {
        SurfaceRef { raw }
    }

    /// The raw value, as the host takes it.
    pub fn as_ptr(&self) -> (raw: usize)
        ensures
            raw == self.raw,
    {
        self.raw
    }
}

impl Decode for SurfaceRef {
    open spec fn template() -> Seq<Value> {
        handle_template()
    }

    open spec fn readable(slots: Seq<Value>) -> bool {
        slots[0] is Handle
    }

    open spec fn read(slots: Seq<Value>) -> Self {
        SurfaceRef { raw: slots[0]->Handle_0 }
    }

    proof fn template_zeroed() {
    }

    fn width() -> (n: usize) {
        1
    }

    fn offer(out: &mut Vec<Value>) {
        offer_handle(out);
    }

    fn decode(slots: &Vec<Value>, at: usize) -> (r: Option<Self>) {
        match decode_handle(slots, at) {
            Some(raw) => Some(SurfaceRef { raw }),
            None => None,
        }
    }
}

/// A borrowed handle to a drawing context.
#[derive(Clone, Copy, Debug, PartialEq, Eq, Structural, Hash)]
pub struct DrawRef {
    pub raw: usize,
}

impl DrawRef {
    /// Wraps the raw value that the host issued.
    pub fn from_raw(raw: usize) -> (h: Self)
        ensures
            h.raw == raw,
    {
        DrawRef { raw }
    }

    /// The raw value, as the host takes it.
    pub fn as_ptr(&self) -> (raw: usize)
        ensures
            raw == self.raw,
    {
        self.raw
    }
}

} // verus!
