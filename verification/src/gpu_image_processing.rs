//! Access to common GPU image processing algorithms.
//!
//! The algorithms run in the host. Source and destination frames are named
//! by their addresses in GPU memory.

use vstd::prelude::*;
use crate::call::{CallView, HostCall};
use crate::decode::Decode;
use crate::entry::{gpu_image_processing_suite, Entry, MediaEntry, SuiteId, SuiteName};
use crate::error::Error;
use crate::pending::Pending;
use crate::registry::{Acquire, Registry, SuiteGuard};
use crate::value::Value;

verus! {

/// A pixel format, named by the host's four-character code.
#[derive(Clone, Copy, Debug, PartialEq, Eq, Structural, Hash)]
pub struct PixelFormat {
    pub raw: u32,
}

/// The quality at which the host renders.
#[derive(Clone, Copy, Debug, PartialEq, Eq, Structural, Hash)]
pub enum RenderQuality {
    Draft,
    Low,
    Medium,
    High,
    Max,
    Invalid,
}

impl RenderQuality {
    /// The host's code for a variant.
    pub open spec fn raw_of(self) -> u32 {
        match self {
            RenderQuality::Draft => 0,
            RenderQuality::Low => 1,
            RenderQuality::Medium => 2,
            RenderQuality::High => 3,
            RenderQuality::Max => 4,
            RenderQuality::Invalid => 0xFFFF_FFFF,
        }
    }

    /// The variant that a code of the host stands for, if it stands for one.
    pub open spec fn of_raw(raw: u32) -> Option<RenderQuality> {
        if raw == 0 {
            Some(RenderQuality::Draft)
        } else if raw == 1 {
            Some(RenderQuality::Low)
        } else if raw == 2 {
            Some(RenderQuality::Medium)
        } else if raw == 3 {
            Some(RenderQuality::High)
        } else if raw == 4 {
            Some(RenderQuality::Max)
        } else if raw == 0xFFFF_FFFF {
            Some(RenderQuality::Invalid)
        } else {
            None
        }
    }

    /// The host's code for this variant.
    pub fn to_raw(self) -> (raw: u32)
        ensures
            raw == self.raw_of(),
            RenderQuality::of_raw(raw) == Some(self),
    {
        match self {
            RenderQuality::Draft => 0,
            RenderQuality::Low => 1,
            RenderQuality::Medium => 2,
            RenderQuality::High => 3,
            RenderQuality::Max => 4,
            RenderQuality::Invalid => 0xFFFF_FFFF,
        }
    }

    /// The variant that a code of the host stands for. A code outside the
    /// published set stands for none and is never mapped to a default.
    pub fn from_raw(raw: u32) -> (v: Option<RenderQuality>)
        ensures
            v == RenderQuality::of_raw(raw),
            v matches Some(known) ==> known.raw_of() == raw,
    {
        if raw == 0 {
            Some(RenderQuality::Draft)
        } else if raw == 1 {
            Some(RenderQuality::Low)
        } else if raw == 2 {
            Some(RenderQuality::Medium)
        } else if raw == 3 {
            Some(RenderQuality::High)
        } else if raw == 4 {
            Some(RenderQuality::Max)
        } else if raw == 0xFFFF_FFFF {
            Some(RenderQuality::Invalid)
        } else {
            None
        }
    }
}

impl Decode for RenderQuality {
    open spec fn template() -> Seq<Value> {
        seq![Value::Word(0)]
    }

    open spec fn readable(slots: Seq<Value>) -> bool {
        slots[0] is Word && RenderQuality::of_raw(slots[0]->Word_0) is Some
    }

    open spec fn read(slots: Seq<Value>) -> Self {
        RenderQuality::of_raw(slots[0]->Word_0)->Some_0
    }

    proof fn template_zeroed() {
    }

    fn width() -> (n: usize) {
        1
    }

    fn offer(out: &mut Vec<Value>) {
        out.push(Value::Word(0));
        proof {
            assert(out@ =~= old(out)@ + Self::template());
        }
    }

    fn decode(slots: &Vec<Value>, at: usize) -> (r: Option<Self>) {
        match slots[at] {
            Value::Word(raw) => RenderQuality::from_raw(raw),
            _ => None,
        }
    }
}

/// Every variant of [`RenderQuality`] has a code of its own, and the code leads back
/// to the variant.
pub proof fn lemma_render_quality_round_trip(v: RenderQuality, raw: u32)
    ensures
        RenderQuality::of_raw(v.raw_of()) == Some(v),
        RenderQuality::of_raw(raw) matches Some(w) ==> w.raw_of() == raw,
{
}
/// Access to common GPU image processing algorithms.
#[derive(Debug)]
pub struct GPUImageProcessingSuite {
    guard: SuiteGuard,
}

impl GPUImageProcessingSuite {
    #[verifier::type_invariant]
    spec fn holds_own_table(self) -> bool {
        self.guard.suite() == gpu_image_processing_suite()
    }

    /// The guard that owns the acquired table.
    pub closed spec fn guard(self) -> SuiteGuard {
        self.guard
    }

    /// The (name, version) pair of this table.
    pub fn id() -> (id: SuiteId)
        ensures
            id == gpu_image_processing_suite(),
    {
        SuiteId { name: SuiteName::GpuImageProcessing, version: 1 }
    }

    /// Starts the acquisition of this table from the host. With a null
    /// registry root it fails at once with "unavailable", and nothing is
    /// called.
    pub fn new(registry: &Registry) -> (r: Result<Acquire, Error>)
        ensures
            registry.null() ==> r == Err::<Acquire, Error>(Error::Unavailable),
            !registry.null() ==> r is Ok && r->Ok_0.registry() == registry.raw
                && r->Ok_0.suite() == gpu_image_processing_suite(),
    {
        Acquire::begin(registry, Self::id())
    }

    /// Wraps the guard of a completed acquisition. Returns `None` exactly when
    /// the guard owns some other table; the guard is then lost, so release it
    /// instead of handing it here.
    pub fn from_guard(guard: SuiteGuard) -> (s: Option<Self>)
        ensures
            s is Some <==> guard.suite() == gpu_image_processing_suite(),
            s matches Some(suite) ==> suite.guard() == guard,
    {
        let id = guard.id();
        let own = Self::id();
        if id == own {
            Some(GPUImageProcessingSuite { guard })
        } else {
            None
        }
    }

    /// Ends the lifetime of the suite. The result is the one release call
    /// that is owed for its acquisition.
    pub fn release(self) -> (c: HostCall)
        ensures
            c@ == (CallView::Release { registry: self.guard().registry(), suite: gpu_image_processing_suite() }),
            self.guard().suite() == gpu_image_processing_suite(),
    {
        proof {
            use_type_invariant(&self);
        }
        self.guard.release()
    }

    /// Starts an independent acquisition of the same table: a copy of a suite
    /// is a second suite, released on its own.
    pub fn reacquire(&self) -> (a: Acquire)
        ensures
            a.registry() == self.guard().registry(),
            a.suite() == gpu_image_processing_suite(),
    {
        proof {
            use_type_invariant(self);
        }
        self.guard.reacquire()
    }

    /// Convert between formats on the GPU.
    /// One of `src_format` or `dst_format` must be a host format, the other must
    /// be one of the two GPU formats.
    pub fn pixel_format_convert(&self, device_index: u32, src: usize, src_stride: i32, src_format: PixelFormat, dst: usize, dst_stride: i32, dst_format: PixelFormat, width: u32, height: u32, quality: RenderQuality) -> (p: Pending<()>)
        ensures
            p.request() == (CallView::Invoke {
                table: self.guard().table(),
                entry: Entry::Media(MediaEntry::PixelFormatConvert),
                args: seq![
                    Value::Word(device_index),
                    Value::Handle(src),
                    Value::Int(src_stride),
                    Value::Word(src_format.raw),
                    Value::Handle(dst),
                    Value::Int(dst_stride),
                    Value::Word(dst_format.raw),
                    Value::Word(width),
                    Value::Word(height),
                    Value::Word(quality.raw_of()),
                ],
                outputs: <()>::template(),
            }),
    {
        let args: Vec<Value> = vec![
            Value::Word(device_index),
            Value::Handle(src),
            Value::Int(src_stride),
            Value::Word(src_format.raw),
            Value::Handle(dst),
            Value::Int(dst_stride),
            Value::Word(dst_format.raw),
            Value::Word(width),
            Value::Word(height),
            Value::Word(quality.to_raw()),
        ];
        proof {
            assert(args@ =~= seq![
                Value::Word(device_index),
                Value::Handle(src),
                Value::Int(src_stride),
                Value::Word(src_format.raw),
                Value::Handle(dst),
                Value::Int(dst_stride),
                Value::Word(dst_format.raw),
                Value::Word(width),
                Value::Word(height),
                Value::Word(quality.raw_of()),
            ]);
        }
        Pending::new(self.guard.table_ptr(), Entry::Media(MediaEntry::PixelFormatConvert), args)
    }

    /// Scale a frame on the GPU.
    /// `format` must be one of the two GPU formats. The scale factors are bit
    /// patterns of 32-bit floating-point numbers.
    pub fn scale(&self, device_index: u32, src: usize, src_stride: i32, src_width: u32, src_height: u32, dst: usize, dst_stride: i32, dst_width: u32, dst_height: u32, format: PixelFormat, scale_x: u32, scale_y: u32, quality: RenderQuality) -> (p: Pending<()>)
        ensures
            p.request() == (CallView::Invoke {
                table: self.guard().table(),
                entry: Entry::Media(MediaEntry::Scale),
                args: seq![
                    Value::Word(device_index),
                    Value::Handle(src),
                    Value::Int(src_stride),
                    Value::Word(src_width),
                    Value::Word(src_height),
                    Value::Handle(dst),
                    Value::Int(dst_stride),
                    Value::Word(dst_width),
                    Value::Word(dst_height),
                    Value::Word(format.raw),
                    Value::Single(scale_x),
                    Value::Single(scale_y),
                    Value::Word(quality.raw_of()),
                ],
                outputs: <()>::template(),
            }),
    {
        let args: Vec<Value> = vec![
            Value::Word(device_index),
            Value::Handle(src),
            Value::Int(src_stride),
            Value::Word(src_width),
            Value::Word(src_height),
            Value::Handle(dst),
            Value::Int(dst_stride),
            Value::Word(dst_width),
            Value::Word(dst_height),
            Value::Word(format.raw),
            Value::Single(scale_x),
            Value::Single(scale_y),
            Value::Word(quality.to_raw()),
        ];
        proof {
            assert(args@ =~= seq![
                Value::Word(device_index),
                Value::Handle(src),
                Value::Int(src_stride),
                Value::Word(src_width),
                Value::Word(src_height),
                Value::Handle(dst),
                Value::Int(dst_stride),
                Value::Word(dst_width),
                Value::Word(dst_height),
                Value::Word(format.raw),
                Value::Single(scale_x),
                Value::Single(scale_y),
                Value::Word(quality.raw_of()),
            ]);
        }
        Pending::new(self.guard.table_ptr(), Entry::Media(MediaEntry::Scale), args)
    }

    /// Gaussian blur on the GPU.
    /// `format` must be one of the two GPU formats. The sigmas are bit patterns
    /// of 32-bit floating-point numbers.
    pub fn gaussian_blur(&self, device_index: u32, src: usize, src_stride: i32, src_width: u32, src_height: u32, dst: usize, dst_stride: i32, dst_width: u32, dst_height: u32, format: PixelFormat, sigma_x: u32, sigma_y: u32, repeat_edge_pixels: bool, blur_horizontally: bool, blur_vertically: bool, quality: RenderQuality) -> (p: Pending<()>)
        ensures
            p.request() == (CallView::Invoke {
                table: self.guard().table(),
                entry: Entry::Media(MediaEntry::GaussianBlur),
                args: seq![
                    Value::Word(device_index),
                    Value::Handle(src),
                    Value::Int(src_stride),
                    Value::Word(src_width),
                    Value::Word(src_height),
                    Value::Handle(dst),
                    Value::Int(dst_stride),
                    Value::Word(dst_width),
                    Value::Word(dst_height),
                    Value::Word(format.raw),
                    Value::Single(sigma_x),
                    Value::Single(sigma_y),
                    Value::truth_of(repeat_edge_pixels),
                    Value::truth_of(blur_horizontally),
                    Value::truth_of(blur_vertically),
                    Value::Word(quality.raw_of()),
                ],
                outputs: <()>::template(),
            }),
    {
        let args: Vec<Value> = vec![
            Value::Word(device_index),
            Value::Handle(src),
            Value::Int(src_stride),
            Value::Word(src_width),
            Value::Word(src_height),
            Value::Handle(dst),
            Value::Int(dst_stride),
            Value::Word(dst_width),
            Value::Word(dst_height),
            Value::Word(format.raw),
            Value::Single(sigma_x),
            Value::Single(sigma_y),
            Value::truth(repeat_edge_pixels),
            Value::truth(blur_horizontally),
            Value::truth(blur_vertically),
            Value::Word(quality.to_raw()),
        ];
        proof {
            assert(args@ =~= seq![
                Value::Word(device_index),
                Value::Handle(src),
                Value::Int(src_stride),
                Value::Word(src_width),
                Value::Word(src_height),
                Value::Handle(dst),
                Value::Int(dst_stride),
                Value::Word(dst_width),
                Value::Word(dst_height),
                Value::Word(format.raw),
                Value::Single(sigma_x),
                Value::Single(sigma_y),
                Value::truth_of(repeat_edge_pixels),
                Value::truth_of(blur_horizontally),
                Value::truth_of(blur_vertically),
                Value::Word(quality.raw_of()),
            ]);
        }
        Pending::new(self.guard.table_ptr(), Entry::Media(MediaEntry::GaussianBlur), args)
    }
}

} // verus!
