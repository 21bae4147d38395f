//! The tables of worlds, layers, streams and cameras, and of 3D scenes with
//! their nodes, materials and meshes.

use vstd::prelude::*;
use crate::buffers::{FaceGroupFill, FaceGroupFillView, MeshFill, MeshFillView};
use crate::call::{CallView, HostCall, HostReply, ReplyView};
use crate::decode::{decode_handle, handle_template, index_of, offer_handle, signed_of, Decode};
use crate::entry::{
    camera_suite, layer_suite, scene3d_material_suite, scene3d_mesh_suite, scene3d_node_suite,
    scene3d_suite, stream_suite, world_suite, CompEntry, Entry, SceneEntry, SuiteId, SuiteName,
};
use crate::error::{Error, STATUS_OK};
use crate::handle::{CompHandle, InDataHandle, LayerHandle, RenderContextHandle};
use crate::machine::{after, trace, Machine};
use crate::pending::{Filling, Pending, Query, Stored};
use crate::pf::{EffectWorld, Time};
use crate::registry::{names_table, Acquire, Registry, SuiteGuard};
use crate::sequence::{call_views, Sequence, SequenceView};
use crate::value::{zeros_of, Kind, Value};

verus! {

/// The direction in which the film size of a camera is measured.
#[derive(Clone, Copy, Debug, PartialEq, Eq, Structural, Hash)]
pub enum FilmSizeUnits {
    NoUnits,
    Horizontal,
    Vertical,
    Diagonal,
}

impl FilmSizeUnits {
    /// The host's code for a variant.
    pub open spec fn raw_of(self) -> i32 {
        match self {
            FilmSizeUnits::NoUnits => 0,
            FilmSizeUnits::Horizontal => 1,
            FilmSizeUnits::Vertical => 2,
            FilmSizeUnits::Diagonal => 3,
        }
    }

    /// The variant that a code of the host stands for, if it stands for one.
    pub open spec fn of_raw(raw: i32) -> Option<FilmSizeUnits> {
        if raw == 0 {
            Some(FilmSizeUnits::NoUnits)
        } else if raw == 1 {
            Some(FilmSizeUnits::Horizontal)
        } else if raw == 2 {
            Some(FilmSizeUnits::Vertical)
        } else if raw == 3 {
            Some(FilmSizeUnits::Diagonal)
        } else {
            None
        }
    }

    /// The host's code for this variant.
    pub fn to_raw(self) -> (raw: i32)
        ensures
            raw == self.raw_of(),
            FilmSizeUnits::of_raw(raw) == Some(self),
    {
        match self {
            FilmSizeUnits::NoUnits => 0,
            FilmSizeUnits::Horizontal => 1,
            FilmSizeUnits::Vertical => 2,
            FilmSizeUnits::Diagonal => 3,
        }
    }

    /// The variant that a code of the host stands for. A code outside the
    /// published set stands for none and is never mapped to a default.
    pub fn from_raw(raw: i32) -> (v: Option<FilmSizeUnits>)
        ensures
            v == FilmSizeUnits::of_raw(raw),
            v matches Some(known) ==> known.raw_of() == raw,
    {
        if raw == 0 {
            Some(FilmSizeUnits::NoUnits)
        } else if raw == 1 {
            Some(FilmSizeUnits::Horizontal)
        } else if raw == 2 {
            Some(FilmSizeUnits::Vertical)
        } else if raw == 3 {
            Some(FilmSizeUnits::Diagonal)
        } else {
            None
        }
    }
}

impl Decode for FilmSizeUnits {
    open spec fn template() -> Seq<Value> {
        seq![Value::Int(0)]
    }

    open spec fn readable(slots: Seq<Value>) -> bool {
        slots[0] is Int && FilmSizeUnits::of_raw(slots[0]->Int_0) is Some
    }

    open spec fn read(slots: Seq<Value>) -> Self {
        FilmSizeUnits::of_raw(slots[0]->Int_0)->Some_0
    }

    proof fn template_zeroed() {
    }

    fn width() -> (n: usize) {
        1
    }

    fn offer(out: &mut Vec<Value>) {
        out.push(Value::Int(0));
        proof {
            assert(out@ =~= old(out)@ + Self::template());
        }
    }

    fn decode(slots: &Vec<Value>, at: usize) -> (r: Option<Self>) {
        match slots[at] {
            Value::Int(raw) => FilmSizeUnits::from_raw(raw),
            _ => None,
        }
    }
}

/// Every variant of [`FilmSizeUnits`] has a code of its own, and the code leads back
/// to the variant.
pub proof fn lemma_film_size_units_round_trip(v: FilmSizeUnits, raw: i32)
    ensures
        FilmSizeUnits::of_raw(v.raw_of()) == Some(v),
        FilmSizeUnits::of_raw(raw) matches Some(w) ==> w.raw_of() == raw,
{
}
/// The kind of a camera.
#[derive(Clone, Copy, Debug, PartialEq, Eq, Structural, Hash)]
pub enum CameraType {
    NoCamera,
    Persepctive,
    Orthographic,
    NumTypes,
}

impl CameraType {
    /// The host's code for a variant.
    pub open spec fn raw_of(self) -> u32 {
        match self {
            CameraType::NoCamera => 0xFFFF_FFFF,
            CameraType::Persepctive => 0,
            CameraType::Orthographic => 1,
            CameraType::NumTypes => 2,
        }
    }

    /// The variant that a code of the host stands for, if it stands for one.
    pub open spec fn of_raw(raw: u32) -> Option<CameraType> {
        if raw == 0xFFFF_FFFF {
            Some(CameraType::NoCamera)
        } else if raw == 0 {
            Some(CameraType::Persepctive)
        } else if raw == 1 {
            Some(CameraType::Orthographic)
        } else if raw == 2 {
            Some(CameraType::NumTypes)
        } else {
            None
        }
    }

    /// The host's code for this variant.
    pub fn to_raw(self) -> (raw: u32)
        ensures
            raw == self.raw_of(),
            CameraType::of_raw(raw) == Some(self),
    {
        match self {
            CameraType::NoCamera => 0xFFFF_FFFF,
            CameraType::Persepctive => 0,
            CameraType::Orthographic => 1,
            CameraType::NumTypes => 2,
        }
    }

    /// The variant that a code of the host stands for. A code outside the
    /// published set stands for none and is never mapped to a default.
    pub fn from_raw(raw: u32) -> (v: Option<CameraType>)
        ensures
            v == CameraType::of_raw(raw),
            v matches Some(known) ==> known.raw_of() == raw,
    {
        if raw == 0xFFFF_FFFF {
            Some(CameraType::NoCamera)
        } else if raw == 0 {
            Some(CameraType::Persepctive)
        } else if raw == 1 {
            Some(CameraType::Orthographic)
        } else if raw == 2 {
            Some(CameraType::NumTypes)
        } else {
            None
        }
    }
}

impl Decode for CameraType {
    open spec fn template() -> Seq<Value> {
        seq![Value::Word(0)]
    }

    open spec fn readable(slots: Seq<Value>) -> bool {
        slots[0] is Word && CameraType::of_raw(slots[0]->Word_0) is Some
    }

    open spec fn read(slots: Seq<Value>) -> Self {
        CameraType::of_raw(slots[0]->Word_0)->Some_0
    }

    proof fn template_zeroed() {
    }

    fn width() -> (n: usize) {
        1
    }

    fn offer(out: &mut Vec<Value>) {
        out.push(Value::Word(0));
        proof {
            assert(out@ =~= old(out)@ + Self::template());
        }
    }

    fn decode(slots: &Vec<Value>, at: usize) -> (r: Option<Self>) {
        match slots[at] {
            Value::Word(raw) => CameraType::from_raw(raw),
            _ => None,
        }
    }
}

/// Every variant of [`CameraType`] has a code of its own, and the code leads back
/// to the variant.
pub proof fn lemma_camera_type_round_trip(v: CameraType, raw: u32)
    ensures
        CameraType::of_raw(v.raw_of()) == Some(v),
        CameraType::of_raw(raw) matches Some(w) ==> w.raw_of() == raw,
{
}
/// A borrowed handle to a frame buffer of the host.
#[derive(Clone, Copy, Debug, PartialEq, Eq, Structural, Hash)]
pub struct WorldHandle {
    pub raw: usize,
}

impl WorldHandle {
    /// Wraps the raw value that the host issued.
    pub fn from_raw(raw: usize) -> (h: Self)
        ensures
            h.raw == raw,
    {
        WorldHandle { raw }
    }

    /// The raw value, as the host takes it.
    pub fn as_ptr(&self) -> (raw: usize)
        ensures
            raw == self.raw,
    {
        self.raw
    }
}

impl Decode for WorldHandle {
    open spec fn template() -> Seq<Value> {
        handle_template()
    }

    open spec fn readable(slots: Seq<Value>) -> bool {
        slots[0] is Handle
    }

    open spec fn read(slots: Seq<Value>) -> Self {
        WorldHandle { raw: slots[0]->Handle_0 }
    }

    proof fn template_zeroed() {
    }

    fn width() -> (n: usize) {
        1
    }

    fn offer(out: &mut Vec<Value>) {
        offer_handle(out);
    }

    fn decode(slots: &Vec<Value>, at: usize) -> (r: Option<Self>) {
        match decode_handle(slots, at) {
            Some(raw) => Some(WorldHandle { raw }),
            None => None,
        }
    }
}

/// A borrowed handle to a stream of a layer.
#[derive(Clone, Copy, Debug, PartialEq, Eq, Structural, Hash)]
pub struct StreamReferenceHandle {
    pub raw: usize,
}

impl StreamReferenceHandle {
    /// Wraps the raw value that the host issued.
    pub fn from_raw(raw: usize) -> (h: Self)
        ensures
            h.raw == raw,
    {
        StreamReferenceHandle { raw }
    }

    /// The raw value, as the host takes it.
    pub fn as_ptr(&self) -> (raw: usize)
        ensures
            raw == self.raw,
    {
        self.raw
    }
}

impl Decode for StreamReferenceHandle {
    open spec fn template() -> Seq<Value> {
        handle_template()
    }

    open spec fn readable(slots: Seq<Value>) -> bool {
        slots[0] is Handle
    }

    open spec fn read(slots: Seq<Value>) -> Self {
        StreamReferenceHandle { raw: slots[0]->Handle_0 }
    }

    proof fn template_zeroed() {
    }

    fn width() -> (n: usize) {
        1
    }

    fn offer(out: &mut Vec<Value>) {
        offer_handle(out);
    }

    fn decode(slots: &Vec<Value>, at: usize) -> (r: Option<Self>) {
        match decode_handle(slots, at) {
            Some(raw) => Some(StreamReferenceHandle { raw }),
            None => None,
        }
    }
}

/// A borrowed handle to a material of a 3D scene.
#[derive(Clone, Copy, Debug, PartialEq, Eq, Structural, Hash)]
pub struct Scene3DMaterialHandle {
    pub raw: usize,
}

impl Scene3DMaterialHandle {
    /// Wraps the raw value that the host issued.
    pub fn from_raw(raw: usize) -> (h: Self)
        ensures
            h.raw == raw,
    {
        Scene3DMaterialHandle { raw }
    }

    /// The raw value, as the host takes it.
    pub fn as_ptr(&self) -> (raw: usize)
        ensures
            raw == self.raw,
    {
        self.raw
    }
}

impl Decode for Scene3DMaterialHandle {
    open spec fn template() -> Seq<Value> {
        handle_template()
    }

    open spec fn readable(slots: Seq<Value>) -> bool {
        slots[0] is Handle
    }

    open spec fn read(slots: Seq<Value>) -> Self {
        Scene3DMaterialHandle { raw: slots[0]->Handle_0 }
    }

    proof fn template_zeroed() {
    }

    fn width() -> (n: usize) {
        1
    }

    fn offer(out: &mut Vec<Value>) {
        offer_handle(out);
    }

    fn decode(slots: &Vec<Value>, at: usize) -> (r: Option<Self>) {
        match decode_handle(slots, at) {
            Some(raw) => Some(Scene3DMaterialHandle { raw }),
            None => None,
        }
    }
}

/// A borrowed handle to a mesh of a 3D scene.
#[derive(Clone, Copy, Debug, PartialEq, Eq, Structural, Hash)]
pub struct Scene3DMeshHandle {
    pub raw: usize,
}

impl Scene3DMeshHandle {
    /// Wraps the raw value that the host issued.
    pub fn from_raw(raw: usize) -> (h: Self)
        ensures
            h.raw == raw,
    {
        Scene3DMeshHandle { raw }
    }

    /// The raw value, as the host takes it.
    pub fn as_ptr(&self) -> (raw: usize)
        ensures
            raw == self.raw,
    {
        self.raw
    }
}

impl Decode for Scene3DMeshHandle {
    open spec fn template() -> Seq<Value> {
        handle_template()
    }

    open spec fn readable(slots: Seq<Value>) -> bool {
        slots[0] is Handle
    }

    open spec fn read(slots: Seq<Value>) -> Self {
        Scene3DMeshHandle { raw: slots[0]->Handle_0 }
    }

    proof fn template_zeroed() {
    }

    fn width() -> (n: usize) {
        1
    }

    fn offer(out: &mut Vec<Value>) {
        offer_handle(out);
    }

    fn decode(slots: &Vec<Value>, at: usize) -> (r: Option<Self>) {
        match decode_handle(slots, at) {
            Some(raw) => Some(Scene3DMeshHandle { raw }),
            None => None,
        }
    }
}

/// A borrowed handle to a node of a 3D scene.
#[derive(Clone, Copy, Debug, PartialEq, Eq, Structural, Hash)]
pub struct Scene3DNodeHandle {
    pub raw: usize,
}

impl Scene3DNodeHandle {
    /// Wraps the raw value that the host issued.
    pub fn from_raw(raw: usize) -> (h: Self)
        ensures
            h.raw == raw,
    {
        Scene3DNodeHandle { raw }
    }

    /// Wraps the raw value that the host issued.
    pub fn new(node_ptr: usize) -> (h: Self)
        ensures
            h.raw == node_ptr,
    {
        Scene3DNodeHandle { raw: node_ptr }
    }

    /// The raw value, as the host takes it.
    pub fn as_ptr(&self) -> (raw: usize)
        ensures
            raw == self.raw,
    {
        self.raw
    }
}

/// A borrowed handle to the texture cache of 3D scenes.
#[derive(Clone, Copy, Debug, PartialEq, Eq, Structural, Hash)]
pub struct Scene3DTextureCacheHandle {
    pub raw: usize,
}

impl Scene3DTextureCacheHandle {
    /// Wraps the raw value that the host issued.
    pub fn from_raw(raw: usize) -> (h: Self)
        ensures
            h.raw == raw,
    {
        Scene3DTextureCacheHandle { raw }
    }

    /// Allocates a texture cache through the table of a scene, and gives the
    /// scene up. The first part of the result is the allocation; the second
    /// is the teardown of the scene, which is to be run after it whatever
    /// the allocation came to.
    pub fn new(scene3d: Scene3D) -> (r: (Pending<Scene3DTextureCacheHandle>, Sequence))
        ensures
            r.0.request() == (CallView::Invoke {
                table: scene3d.guard().table(),
                entry: Entry::Scene(SceneEntry::TextureCacheAlloc),
                args: Seq::<Value>::empty(),
                outputs: Scene3DTextureCacheHandle::template(),
            }),
            r.1@ == (SequenceView {
                calls: scene3d.teardown(),
                cursor: 0,
                stops: false,
                failure: None,
            }),
    {
        let args: Vec<Value> = Vec::new();
        proof {
            assert(args@ =~= Seq::<Value>::empty());
        }
        let alloc = Pending::new(
            scene3d.get_scene3d_suite_ptr(),
            Entry::Scene(SceneEntry::TextureCacheAlloc),
            args,
        );
        (alloc, scene3d.release())
    }

    /// The raw value, as the host takes it.
    pub fn as_ptr(&self) -> (raw: usize)
        ensures
            raw == self.raw,
    {
        self.raw
    }
}

impl Decode for Scene3DTextureCacheHandle {
    open spec fn template() -> Seq<Value> {
        handle_template()
    }

    open spec fn readable(slots: Seq<Value>) -> bool {
        slots[0] is Handle
    }

    open spec fn read(slots: Seq<Value>) -> Self {
        Scene3DTextureCacheHandle { raw: slots[0]->Handle_0 }
    }

    proof fn template_zeroed() {
    }

    fn width() -> (n: usize) {
        1
    }

    fn offer(out: &mut Vec<Value>) {
        offer_handle(out);
    }

    fn decode(slots: &Vec<Value>, at: usize) -> (r: Option<Self>) {
        match decode_handle(slots, at) {
            Some(raw) => Some(Scene3DTextureCacheHandle { raw }),
            None => None,
        }
    }
}

/// The value of a stream at one time, as the host wrote it.
#[derive(Debug, PartialEq, Eq, Hash)]
pub struct StreamValue {
    /// The bytes of the structure, as the host left them.
    pub stream_value: Vec<u8>,
}

impl Stored for StreamValue {
    open spec fn bytes(&self) -> Seq<u8> {
        self.stream_value@
    }

    fn wrap(bytes: Vec<u8>) -> (v: Self) {
        StreamValue { stream_value: bytes }
    }
}

/// The basic coefficients of a material, as the host wrote them.
#[derive(Debug, PartialEq, Eq, Hash)]
pub struct MaterialBasic {
    /// The bytes of the structure, as the host left them.
    pub bytes: Vec<u8>,
}

impl Stored for MaterialBasic {
    open spec fn bytes(&self) -> Seq<u8> {
        self.bytes@
    }

    fn wrap(bytes: Vec<u8>) -> (v: Self) {
        MaterialBasic { bytes: bytes }
    }
}

/// A 4 by 4 matrix of 64-bit floating-point numbers, held as bit patterns
/// in the order in which the host lays the cells out in memory.
#[derive(Clone, Copy, Debug, PartialEq, Eq, Structural, Hash)]
pub struct Matrix4 {
    /// Cell 0 in memory order.
    pub m00: u64,
    /// Cell 1 in memory order.
    pub m01: u64,
    /// Cell 2 in memory order.
    pub m02: u64,
    /// Cell 3 in memory order.
    pub m03: u64,
    /// Cell 4 in memory order.
    pub m10: u64,
    /// Cell 5 in memory order.
    pub m11: u64,
    /// Cell 6 in memory order.
    pub m12: u64,
    /// Cell 7 in memory order.
    pub m13: u64,
    /// Cell 8 in memory order.
    pub m20: u64,
    /// Cell 9 in memory order.
    pub m21: u64,
    /// Cell 10 in memory order.
    pub m22: u64,
    /// Cell 11 in memory order.
    pub m23: u64,
    /// Cell 12 in memory order.
    pub m30: u64,
    /// Cell 13 in memory order.
    pub m31: u64,
    /// Cell 14 in memory order.
    pub m32: u64,
    /// Cell 15 in memory order.
    pub m33: u64,
}

impl Decode for Matrix4 {
    open spec fn template() -> Seq<Value> {
        seq![
            Value::Double(0),
            Value::Double(0),
            Value::Double(0),
            Value::Double(0),
            Value::Double(0),
            Value::Double(0),
            Value::Double(0),
            Value::Double(0),
            Value::Double(0),
            Value::Double(0),
            Value::Double(0),
            Value::Double(0),
            Value::Double(0),
            Value::Double(0),
            Value::Double(0),
            Value::Double(0),
        ]
    }

    open spec fn readable(slots: Seq<Value>) -> bool {
        &&& slots[0] is Double
        &&& slots[1] is Double
        &&& slots[2] is Double
        &&& slots[3] is Double
        &&& slots[4] is Double
        &&& slots[5] is Double
        &&& slots[6] is Double
        &&& slots[7] is Double
        &&& slots[8] is Double
        &&& slots[9] is Double
        &&& slots[10] is Double
        &&& slots[11] is Double
        &&& slots[12] is Double
        &&& slots[13] is Double
        &&& slots[14] is Double
        &&& slots[15] is Double
    }

    open spec fn read(slots: Seq<Value>) -> Self {
        Matrix4 {
            m00: slots[0]->Double_0,
            m01: slots[1]->Double_0,
            m02: slots[2]->Double_0,
            m03: slots[3]->Double_0,
            m10: slots[4]->Double_0,
            m11: slots[5]->Double_0,
            m12: slots[6]->Double_0,
            m13: slots[7]->Double_0,
            m20: slots[8]->Double_0,
            m21: slots[9]->Double_0,
            m22: slots[10]->Double_0,
            m23: slots[11]->Double_0,
            m30: slots[12]->Double_0,
            m31: slots[13]->Double_0,
            m32: slots[14]->Double_0,
            m33: slots[15]->Double_0,
        }
    }

    proof fn template_zeroed() {
    }

    fn width() -> (n: usize) {
        16
    }

    fn offer(out: &mut Vec<Value>) {
        out.push(Value::Double(0));
        out.push(Value::Double(0));
        out.push(Value::Double(0));
        out.push(Value::Double(0));
        out.push(Value::Double(0));
        out.push(Value::Double(0));
        out.push(Value::Double(0));
        out.push(Value::Double(0));
        out.push(Value::Double(0));
        out.push(Value::Double(0));
        out.push(Value::Double(0));
        out.push(Value::Double(0));
        out.push(Value::Double(0));
        out.push(Value::Double(0));
        out.push(Value::Double(0));
        out.push(Value::Double(0));
        proof {
            assert(out@ =~= old(out)@ + Self::template());
        }
    }

    fn decode(slots: &Vec<Value>, at: usize) -> (r: Option<Self>) {
        let len: usize = slots.len();
        proof {
            assert(Self::template().len() == 16);
        }
        let m00: u64 = match slots[at] {
            Value::Double(v) => v,
            _ => {
                return None;
            },
        };
        let m01: u64 = match slots[at + 1] {
            Value::Double(v) => v,
            _ => {
                return None;
            },
        };
        let m02: u64 = match slots[at + 2] {
            Value::Double(v) => v,
            _ => {
                return None;
            },
        };
        let m03: u64 = match slots[at + 3] {
            Value::Double(v) => v,
            _ => {
                return None;
            },
        };
        let m10: u64 = match slots[at + 4] {
            Value::Double(v) => v,
            _ => {
                return None;
            },
        };
        let m11: u64 = match slots[at + 5] {
            Value::Double(v) => v,
            _ => {
                return None;
            },
        };
        let m12: u64 = match slots[at + 6] {
            Value::Double(v) => v,
            _ => {
                return None;
            },
        };
        let m13: u64 = match slots[at + 7] {
            Value::Double(v) => v,
            _ => {
                return None;
            },
        };
        let m20: u64 = match slots[at + 8] {
            Value::Double(v) => v,
            _ => {
                return None;
            },
        };
        let m21: u64 = match slots[at + 9] {
            Value::Double(v) => v,
            _ => {
                return None;
            },
        };
        let m22: u64 = match slots[at + 10] {
            Value::Double(v) => v,
            _ => {
                return None;
            },
        };
        let m23: u64 = match slots[at + 11] {
            Value::Double(v) => v,
            _ => {
                return None;
            },
        };
        let m30: u64 = match slots[at + 12] {
            Value::Double(v) => v,
            _ => {
                return None;
            },
        };
        let m31: u64 = match slots[at + 13] {
            Value::Double(v) => v,
            _ => {
                return None;
            },
        };
        let m32: u64 = match slots[at + 14] {
            Value::Double(v) => v,
            _ => {
                return None;
            },
        };
        let m33: u64 = match slots[at + 15] {
            Value::Double(v) => v,
            _ => {
                return None;
            },
        };
        Some(Matrix4 { m00, m01, m02, m03, m10, m11, m12, m13, m20, m21, m22, m23, m30, m31, m32, m33 })
    }
}

/// The table of frame buffers.
#[derive(Debug)]
pub struct WorldSuite {
    guard: SuiteGuard,
}

impl WorldSuite {
    #[verifier::type_invariant]
    spec fn holds_own_table(self) -> bool {
        self.guard.suite() == world_suite()
    }

    /// The guard that owns the acquired table.
    pub closed spec fn guard(self) -> SuiteGuard {
        self.guard
    }

    /// The (name, version) pair of this table.
    pub fn id() -> (id: SuiteId)
        ensures
            id == world_suite(),
    {
        SuiteId { name: SuiteName::World, version: 3 }
    }

    /// Starts the acquisition of this table from the host. With a null
    /// registry root it fails at once with "unavailable", and nothing is
    /// called.
    pub fn new(registry: &Registry) -> (r: Result<Acquire, Error>)
        ensures
            registry.null() ==> r == Err::<Acquire, Error>(Error::Unavailable),
            !registry.null() ==> r is Ok && r->Ok_0.registry() == registry.raw
                && r->Ok_0.suite() == world_suite(),
    {
        Acquire::begin(registry, Self::id())
    }

    /// Wraps the guard of a completed acquisition. Returns `None` exactly when
    /// the guard owns some other table; the guard is then lost, so release it
    /// instead of handing it here.
    pub fn from_guard(guard: SuiteGuard) -> (s: Option<Self>)
        ensures
            s is Some <==> guard.suite() == world_suite(),
            s matches Some(suite) ==> suite.guard() == guard,
    {
        let id = guard.id();
        let own = Self::id();
        if id == own {
            Some(WorldSuite { guard })
        } else {
            None
        }
    }

    /// Ends the lifetime of the suite. The result is the one release call
    /// that is owed for its acquisition.
    pub fn release(self) -> (c: HostCall)
        ensures
            c@ == (CallView::Release { registry: self.guard().registry(), suite: world_suite() }),
            self.guard().suite() == world_suite(),
    {
        proof {
            use_type_invariant(&self);
        }
        self.guard.release()
    }

    /// Starts an independent acquisition of the same table: a copy of a suite
    /// is a second suite, released on its own.
    pub fn reacquire(&self) -> (a: Acquire)
        ensures
            a.registry() == self.guard().registry(),
            a.suite() == world_suite(),
    {
        proof {
            use_type_invariant(self);
        }
        self.guard.reacquire()
    }

    /// Has the host describe a frame buffer for the effect interface. The
    /// description is offered as `size` zeroed bytes, the size of the host's
    /// structure.
    pub fn fill_out_pf_effect_world(&self, world: &WorldHandle, size: usize) -> (p: Filling<EffectWorld>)
        ensures
            p.request() == (CallView::Invoke {
                table: self.guard().table(),
                entry: Entry::Comp(CompEntry::FillOutEffectWorld),
                args: seq![
                    Value::Handle(world.raw),
                ],
                outputs: zeros_of(Kind::Byte, size as nat),
            }),
    {
        let args: Vec<Value> = vec![
            Value::Handle(world.raw),
        ];
        proof {
            assert(args@ =~= seq![
                Value::Handle(world.raw),
            ]);
        }
        Filling::new(self.guard.table_ptr(), Entry::Comp(CompEntry::FillOutEffectWorld), args, size)
    }
}

/// The table of layers.
#[derive(Debug)]
pub struct LayerSuite {
    guard: SuiteGuard,
}

impl LayerSuite {
    #[verifier::type_invariant]
    spec fn holds_own_table(self) -> bool {
        self.guard.suite() == layer_suite()
    }

    /// The guard that owns the acquired table.
    pub closed spec fn guard(self) -> SuiteGuard {
        self.guard
    }

    /// The (name, version) pair of this table.
    pub fn id() -> (id: SuiteId)
        ensures
            id == layer_suite(),
    {
        SuiteId { name: SuiteName::Layer, version: 5 }
    }

    /// Starts the acquisition of this table from the host. With a null
    /// registry root it fails at once with "unavailable", and nothing is
    /// called.
    pub fn new(registry: &Registry) -> (r: Result<Acquire, Error>)
        ensures
            registry.null() ==> r == Err::<Acquire, Error>(Error::Unavailable),
            !registry.null() ==> r is Ok && r->Ok_0.registry() == registry.raw
                && r->Ok_0.suite() == layer_suite(),
    {
        Acquire::begin(registry, Self::id())
    }

    /// Wraps the guard of a completed acquisition. Returns `None` exactly when
    /// the guard owns some other table; the guard is then lost, so release it
    /// instead of handing it here.
    pub fn from_guard(guard: SuiteGuard) -> (s: Option<Self>)
        ensures
            s is Some <==> guard.suite() == layer_suite(),
            s matches Some(suite) ==> suite.guard() == guard,
    {
        let id = guard.id();
        let own = Self::id();
        if id == own {
            Some(LayerSuite { guard })
        } else {
            None
        }
    }

    /// Ends the lifetime of the suite. The result is the one release call
    /// that is owed for its acquisition.
    pub fn release(self) -> (c: HostCall)
        ensures
            c@ == (CallView::Release { registry: self.guard().registry(), suite: layer_suite() }),
            self.guard().suite() == layer_suite(),
    {
        proof {
            use_type_invariant(&self);
        }
        self.guard.release()
    }

    /// Starts an independent acquisition of the same table: a copy of a suite
    /// is a second suite, released on its own.
    pub fn reacquire(&self) -> (a: Acquire)
        ensures
            a.registry() == self.guard().registry(),
            a.suite() == layer_suite(),
    {
        proof {
            use_type_invariant(self);
        }
        self.guard.reacquire()
    }

    /// The transform from the space of a layer to the space of the world, at
    /// a time. The time is passed field by field.
    pub fn get_layer_to_worl_xform(&self, layer_handle: &LayerHandle, time: &Time) -> (p: Pending<Matrix4>)
        ensures
            p.request() == (CallView::Invoke {
                table: self.guard().table(),
                entry: Entry::Comp(CompEntry::GetLayerToWorldXform),
                args: seq![
                    Value::Handle(layer_handle.raw),
                    Value::Int(time.value),
                    Value::Word(time.scale),
                ],
                outputs: Matrix4::template(),
            }),
    {
        let args: Vec<Value> = vec![
            Value::Handle(layer_handle.raw),
            Value::Int(time.value),
            Value::Word(time.scale),
        ];
        proof {
            assert(args@ =~= seq![
                Value::Handle(layer_handle.raw),
                Value::Int(time.value),
                Value::Word(time.scale),
            ]);
        }
        Pending::new(self.guard.table_ptr(), Entry::Comp(CompEntry::GetLayerToWorldXform), args)
    }
}

/// The table of streams.
#[derive(Debug)]
pub struct StreamSuite {
    guard: SuiteGuard,
}

impl StreamSuite {
    #[verifier::type_invariant]
    spec fn holds_own_table(self) -> bool {
        self.guard.suite() == stream_suite()
    }

    /// The guard that owns the acquired table.
    pub closed spec fn guard(self) -> SuiteGuard {
        self.guard
    }

    /// The (name, version) pair of this table.
    pub fn id() -> (id: SuiteId)
        ensures
            id == stream_suite(),
    {
        SuiteId { name: SuiteName::Stream, version: 4 }
    }

    /// Starts the acquisition of this table from the host. With a null
    /// registry root it fails at once with "unavailable", and nothing is
    /// called.
    pub fn new(registry: &Registry) -> (r: Result<Acquire, Error>)
        ensures
            registry.null() ==> r == Err::<Acquire, Error>(Error::Unavailable),
            !registry.null() ==> r is Ok && r->Ok_0.registry() == registry.raw
                && r->Ok_0.suite() == stream_suite(),
    {
        Acquire::begin(registry, Self::id())
    }

    /// Wraps the guard of a completed acquisition. Returns `None` exactly when
    /// the guard owns some other table; the guard is then lost, so release it
    /// instead of handing it here.
    pub fn from_guard(guard: SuiteGuard) -> (s: Option<Self>)
        ensures
            s is Some <==> guard.suite() == stream_suite(),
            s matches Some(suite) ==> suite.guard() == guard,
    {
        let id = guard.id();
        let own = Self::id();
        if id == own {
            Some(StreamSuite { guard })
        } else {
            None
        }
    }

    /// Ends the lifetime of the suite. The result is the one release call
    /// that is owed for its acquisition.
    pub fn release(self) -> (c: HostCall)
        ensures
            c@ == (CallView::Release { registry: self.guard().registry(), suite: stream_suite() }),
            self.guard().suite() == stream_suite(),
    {
        proof {
            use_type_invariant(&self);
        }
        self.guard.release()
    }

    /// Starts an independent acquisition of the same table: a copy of a suite
    /// is a second suite, released on its own.
    pub fn reacquire(&self) -> (a: Acquire)
        ensures
            a.registry() == self.guard().registry(),
            a.suite() == stream_suite(),
    {
        proof {
            use_type_invariant(self);
        }
        self.guard.reacquire()
    }

    /// A stream of a layer, by the code of its name.
    pub fn get_new_layer_stream(&self, plugin_id: u32, layer_handle: &LayerHandle, stream_name: i32) -> (p: Pending<StreamReferenceHandle>)
        ensures
            p.request() == (CallView::Invoke {
                table: self.guard().table(),
                entry: Entry::Comp(CompEntry::GetNewLayerStream),
                args: seq![
                    Value::Int(plugin_id as i32),
                    Value::Handle(layer_handle.raw),
                    Value::Int(stream_name),
                ],
                outputs: StreamReferenceHandle::template(),
            }),
    {
        let args: Vec<Value> = vec![
            Value::Int(signed_of(plugin_id)),
            Value::Handle(layer_handle.raw),
            Value::Int(stream_name),
        ];
        proof {
            assert(args@ =~= seq![
                Value::Int(plugin_id as i32),
                Value::Handle(layer_handle.raw),
                Value::Int(stream_name),
            ]);
        }
        Pending::new(self.guard.table_ptr(), Entry::Comp(CompEntry::GetNewLayerStream), args)
    }

    /// The value of a stream at a time. The time is passed field by field.
    /// The value is offered as `size` zeroed bytes, the size of the host's
    /// structure.
    pub fn get_new_stream_value(&self, plugin_id: u32, stream_reference_handle: &StreamReferenceHandle, time_mode: i16, time: &Time, sample_stream_pre_expression: bool, size: usize) -> (p: Filling<StreamValue>)
        ensures
            p.request() == (CallView::Invoke {
                table: self.guard().table(),
                entry: Entry::Comp(CompEntry::GetNewStreamValue),
                args: seq![
                    Value::Int(plugin_id as i32),
                    Value::Handle(stream_reference_handle.raw),
                    Value::Short(time_mode),
                    Value::Int(time.value),
                    Value::Word(time.scale),
                    Value::flag_of(sample_stream_pre_expression),
                ],
                outputs: zeros_of(Kind::Byte, size as nat),
            }),
    {
        let args: Vec<Value> = vec![
            Value::Int(signed_of(plugin_id)),
            Value::Handle(stream_reference_handle.raw),
            Value::Short(time_mode),
            Value::Int(time.value),
            Value::Word(time.scale),
            Value::flag(sample_stream_pre_expression),
        ];
        proof {
            assert(args@ =~= seq![
                Value::Int(plugin_id as i32),
                Value::Handle(stream_reference_handle.raw),
                Value::Short(time_mode),
                Value::Int(time.value),
                Value::Word(time.scale),
                Value::flag_of(sample_stream_pre_expression),
            ]);
        }
        Filling::new(self.guard.table_ptr(), Entry::Comp(CompEntry::GetNewStreamValue), args, size)
    }
}

/// The table of cameras.
#[derive(Debug)]
pub struct CameraSuite {
    guard: SuiteGuard,
}

impl CameraSuite {
    #[verifier::type_invariant]
    spec fn holds_own_table(self) -> bool {
        self.guard.suite() == camera_suite()
    }

    /// The guard that owns the acquired table.
    pub closed spec fn guard(self) -> SuiteGuard {
        self.guard
    }

    /// The (name, version) pair of this table.
    pub fn id() -> (id: SuiteId)
        ensures
            id == camera_suite(),
    {
        SuiteId { name: SuiteName::Camera, version: 2 }
    }

    /// Starts the acquisition of this table from the host. With a null
    /// registry root it fails at once with "unavailable", and nothing is
    /// called.
    pub fn new(registry: &Registry) -> (r: Result<Acquire, Error>)
        ensures
            registry.null() ==> r == Err::<Acquire, Error>(Error::Unavailable),
            !registry.null() ==> r is Ok && r->Ok_0.registry() == registry.raw
                && r->Ok_0.suite() == camera_suite(),
    {
        Acquire::begin(registry, Self::id())
    }

    /// Wraps the guard of a completed acquisition. Returns `None` exactly when
    /// the guard owns some other table; the guard is then lost, so release it
    /// instead of handing it here.
    pub fn from_guard(guard: SuiteGuard) -> (s: Option<Self>)
        ensures
            s is Some <==> guard.suite() == camera_suite(),
            s matches Some(suite) ==> suite.guard() == guard,
    {
        let id = guard.id();
        let own = Self::id();
        if id == own {
            Some(CameraSuite { guard })
        } else {
            None
        }
    }

    /// Ends the lifetime of the suite. The result is the one release call
    /// that is owed for its acquisition.
    pub fn release(self) -> (c: HostCall)
        ensures
            c@ == (CallView::Release { registry: self.guard().registry(), suite: camera_suite() }),
            self.guard().suite() == camera_suite(),
    {
        proof {
            use_type_invariant(&self);
        }
        self.guard.release()
    }

    /// Starts an independent acquisition of the same table: a copy of a suite
    /// is a second suite, released on its own.
    pub fn reacquire(&self) -> (a: Acquire)
        ensures
            a.registry() == self.guard().registry(),
            a.suite() == camera_suite(),
    {
        proof {
            use_type_invariant(self);
        }
        self.guard.reacquire()
    }

    /// The camera layer of a render request, at a time.
    pub fn get_camera(&self, render_context_handle: &RenderContextHandle, time: &Time) -> (p: Pending<LayerHandle>)
        ensures
            p.request() == (CallView::Invoke {
                table: self.guard().table(),
                entry: Entry::Comp(CompEntry::GetCamera),
                args: seq![
                    Value::Handle(render_context_handle.raw),
                    Value::Int(time.value),
                    Value::Word(time.scale),
                ],
                outputs: LayerHandle::template(),
            }),
    {
        let args: Vec<Value> = vec![
            Value::Handle(render_context_handle.raw),
            Value::Int(time.value),
            Value::Word(time.scale),
        ];
        proof {
            assert(args@ =~= seq![
                Value::Handle(render_context_handle.raw),
                Value::Int(time.value),
                Value::Word(time.scale),
            ]);
        }
        Pending::new(self.guard.table_ptr(), Entry::Comp(CompEntry::GetCamera), args)
    }

    /// The film size of a camera, as the bit pattern of a 64-bit
    /// floating-point number, and the direction in which it is measured.
    pub fn get_camera_film_size(&self, camera_layer_handle: &LayerHandle) -> (p: Pending<(FilmSizeUnits, u64)>)
        ensures
            p.request() == (CallView::Invoke {
                table: self.guard().table(),
                entry: Entry::Comp(CompEntry::GetCameraFilmSize),
                args: seq![
                    Value::Handle(camera_layer_handle.raw),
                ],
                outputs: <(FilmSizeUnits, u64)>::template(),
            }),
    {
        let args: Vec<Value> = vec![
            Value::Handle(camera_layer_handle.raw),
        ];
        proof {
            assert(args@ =~= seq![
                Value::Handle(camera_layer_handle.raw),
            ]);
        }
        Pending::new(self.guard.table_ptr(), Entry::Comp(CompEntry::GetCameraFilmSize), args)
    }

    /// The distance of the default camera of a composition to the image
    /// plane, as the bit pattern of a 64-bit floating-point number.
    pub fn get_default_camera_distance_to_image_plane(&self, comp_handle: &CompHandle) -> (p: Pending<u64>)
        ensures
            p.request() == (CallView::Invoke {
                table: self.guard().table(),
                entry: Entry::Comp(CompEntry::GetDefaultCameraDistanceToImagePlane),
                args: seq![
                    Value::Handle(comp_handle.raw),
                ],
                outputs: u64::template(),
            }),
    {
        let args: Vec<Value> = vec![
            Value::Handle(comp_handle.raw),
        ];
        proof {
            assert(args@ =~= seq![
                Value::Handle(comp_handle.raw),
            ]);
        }
        Pending::new(self.guard.table_ptr(), Entry::Comp(CompEntry::GetDefaultCameraDistanceToImagePlane), args)
    }

    /// The kind of a camera.
    pub fn get_camera_type(&self, camera_layer_handle: &LayerHandle) -> (p: Pending<CameraType>)
        ensures
            p.request() == (CallView::Invoke {
                table: self.guard().table(),
                entry: Entry::Comp(CompEntry::GetCameraType),
                args: seq![
                    Value::Handle(camera_layer_handle.raw),
                ],
                outputs: CameraType::template(),
            }),
    {
        let args: Vec<Value> = vec![
            Value::Handle(camera_layer_handle.raw),
        ];
        proof {
            assert(args@ =~= seq![
                Value::Handle(camera_layer_handle.raw),
            ]);
        }
        Pending::new(self.guard.table_ptr(), Entry::Comp(CompEntry::GetCameraType), args)
    }
}

/// The table of materials of a 3D scene.
#[derive(Debug)]
pub struct Scene3DMaterialSuite {
    guard: SuiteGuard,
}

impl Scene3DMaterialSuite {
    #[verifier::type_invariant]
    spec fn holds_own_table(self) -> bool {
        self.guard.suite() == scene3d_material_suite()
    }

    /// The guard that owns the acquired table.
    pub closed spec fn guard(self) -> SuiteGuard {
        self.guard
    }

    /// The (name, version) pair of this table.
    pub fn id() -> (id: SuiteId)
        ensures
            id == scene3d_material_suite(),
    {
        SuiteId { name: SuiteName::Scene3DMaterial, version: 1 }
    }

    /// Starts the acquisition of this table from the host. With a null
    /// registry root it fails at once with "unavailable", and nothing is
    /// called.
    pub fn new(registry: &Registry) -> (r: Result<Acquire, Error>)
        ensures
            registry.null() ==> r == Err::<Acquire, Error>(Error::Unavailable),
            !registry.null() ==> r is Ok && r->Ok_0.registry() == registry.raw
                && r->Ok_0.suite() == scene3d_material_suite(),
    {
        Acquire::begin(registry, Self::id())
    }

    /// Wraps the guard of a completed acquisition. Returns `None` exactly when
    /// the guard owns some other table; the guard is then lost, so release it
    /// instead of handing it here.
    pub fn from_guard(guard: SuiteGuard) -> (s: Option<Self>)
        ensures
            s is Some <==> guard.suite() == scene3d_material_suite(),
            s matches Some(suite) ==> suite.guard() == guard,
    {
        let id = guard.id();
        let own = Self::id();
        if id == own {
            Some(Scene3DMaterialSuite { guard })
        } else {
            None
        }
    }

    /// Ends the lifetime of the suite. The result is the one release call
    /// that is owed for its acquisition.
    pub fn release(self) -> (c: HostCall)
        ensures
            c@ == (CallView::Release { registry: self.guard().registry(), suite: scene3d_material_suite() }),
            self.guard().suite() == scene3d_material_suite(),
    {
        proof {
            use_type_invariant(&self);
        }
        self.guard.release()
    }

    /// Starts an independent acquisition of the same table: a copy of a suite
    /// is a second suite, released on its own.
    pub fn reacquire(&self) -> (a: Acquire)
        ensures
            a.registry() == self.guard().registry(),
            a.suite() == scene3d_material_suite(),
    {
        proof {
            use_type_invariant(self);
        }
        self.guard.reacquire()
    }

    /// Whether a material has a color texture.
    pub fn has_uv_color_texture(&self, material_handle: &Scene3DMaterialHandle) -> (p: Pending<bool>)
        ensures
            p.request() == (CallView::Invoke {
                table: self.guard().table(),
                entry: Entry::Scene(SceneEntry::HasUvColorTexture),
                args: seq![
                    Value::Handle(material_handle.raw),
                ],
                outputs: bool::template(),
            }),
    {
        let args: Vec<Value> = vec![
            Value::Handle(material_handle.raw),
        ];
        proof {
            assert(args@ =~= seq![
                Value::Handle(material_handle.raw),
            ]);
        }
        Pending::new(self.guard.table_ptr(), Entry::Scene(SceneEntry::HasUvColorTexture), args)
    }

    /// The color texture of a material.
    pub fn get_uv_color_texture(&self, material: &Scene3DMaterialHandle) -> (p: Pending<WorldHandle>)
        ensures
            p.request() == (CallView::Invoke {
                table: self.guard().table(),
                entry: Entry::Scene(SceneEntry::GetUvColorTexture),
                args: seq![
                    Value::Handle(material.raw),
                ],
                outputs: WorldHandle::template(),
            }),
    {
        let args: Vec<Value> = vec![
            Value::Handle(material.raw),
        ];
        proof {
            assert(args@ =~= seq![
                Value::Handle(material.raw),
            ]);
        }
        Pending::new(self.guard.table_ptr(), Entry::Scene(SceneEntry::GetUvColorTexture), args)
    }

    /// The basic coefficients of a material, offered as `size` zeroed bytes,
    /// the size of the host's structure.
    pub fn get_basic_coeffs(&self, material: &Scene3DMaterialHandle, size: usize) -> (p: Filling<MaterialBasic>)
        ensures
            p.request() == (CallView::Invoke {
                table: self.guard().table(),
                entry: Entry::Scene(SceneEntry::GetBasicCoeffs),
                args: seq![
                    Value::Handle(material.raw),
                ],
                outputs: zeros_of(Kind::Byte, size as nat),
            }),
    {
        let args: Vec<Value> = vec![
            Value::Handle(material.raw),
        ];
        proof {
            assert(args@ =~= seq![
                Value::Handle(material.raw),
            ]);
        }
        Filling::new(self.guard.table_ptr(), Entry::Scene(SceneEntry::GetBasicCoeffs), args, size)
    }
}

/// The table of nodes of a 3D scene.
#[derive(Debug)]
pub struct Scene3DNodeSuite {
    guard: SuiteGuard,
}

impl Scene3DNodeSuite {
    #[verifier::type_invariant]
    spec fn holds_own_table(self) -> bool {
        self.guard.suite() == scene3d_node_suite()
    }

    /// The guard that owns the acquired table.
    pub closed spec fn guard(self) -> SuiteGuard {
        self.guard
    }

    /// The (name, version) pair of this table.
    pub fn id() -> (id: SuiteId)
        ensures
            id == scene3d_node_suite(),
    {
        SuiteId { name: SuiteName::Scene3DNode, version: 1 }
    }

    /// Starts the acquisition of this table from the host. With a null
    /// registry root it fails at once with "unavailable", and nothing is
    /// called.
    pub fn new(registry: &Registry) -> (r: Result<Acquire, Error>)
        ensures
            registry.null() ==> r == Err::<Acquire, Error>(Error::Unavailable),
            !registry.null() ==> r is Ok && r->Ok_0.registry() == registry.raw
                && r->Ok_0.suite() == scene3d_node_suite(),
    {
        Acquire::begin(registry, Self::id())
    }

    /// Wraps the guard of a completed acquisition. Returns `None` exactly when
    /// the guard owns some other table; the guard is then lost, so release it
    /// instead of handing it here.
    pub fn from_guard(guard: SuiteGuard) -> (s: Option<Self>)
        ensures
            s is Some <==> guard.suite() == scene3d_node_suite(),
            s matches Some(suite) ==> suite.guard() == guard,
    {
        let id = guard.id();
        let own = Self::id();
        if id == own {
            Some(Scene3DNodeSuite { guard })
        } else {
            None
        }
    }

    /// Ends the lifetime of the suite. The result is the one release call
    /// that is owed for its acquisition.
    pub fn release(self) -> (c: HostCall)
        ensures
            c@ == (CallView::Release { registry: self.guard().registry(), suite: scene3d_node_suite() }),
            self.guard().suite() == scene3d_node_suite(),
    {
        proof {
            use_type_invariant(&self);
        }
        self.guard.release()
    }

    /// Starts an independent acquisition of the same table: a copy of a suite
    /// is a second suite, released on its own.
    pub fn reacquire(&self) -> (a: Acquire)
        ensures
            a.registry() == self.guard().registry(),
            a.suite() == scene3d_node_suite(),
    {
        proof {
            use_type_invariant(self);
        }
        self.guard.reacquire()
    }

    /// The material of one side of a node. The side is given by its code.
    pub fn get_material_for_side(&self, node_handle: &Scene3DNodeHandle, side: u32) -> (p: Pending<Scene3DMaterialHandle>)
        ensures
            p.request() == (CallView::Invoke {
                table: self.guard().table(),
                entry: Entry::Scene(SceneEntry::GetMaterialForSide),
                args: seq![
                    Value::Handle(node_handle.raw),
                    Value::Word(side),
                ],
                outputs: Scene3DMaterialHandle::template(),
            }),
    {
        let args: Vec<Value> = vec![
            Value::Handle(node_handle.raw),
            Value::Word(side),
        ];
        proof {
            assert(args@ =~= seq![
                Value::Handle(node_handle.raw),
                Value::Word(side),
            ]);
        }
        Pending::new(self.guard.table_ptr(), Entry::Scene(SceneEntry::GetMaterialForSide), args)
    }

    /// The mesh of a node.
    pub fn node_mesh_get(&self, node_handle: &Scene3DNodeHandle) -> (p: Pending<Scene3DMeshHandle>)
        ensures
            p.request() == (CallView::Invoke {
                table: self.guard().table(),
                entry: Entry::Scene(SceneEntry::NodeMeshGet),
                args: seq![
                    Value::Handle(node_handle.raw),
                ],
                outputs: Scene3DMeshHandle::template(),
            }),
    {
        let args: Vec<Value> = vec![
            Value::Handle(node_handle.raw),
        ];
        proof {
            assert(args@ =~= seq![
                Value::Handle(node_handle.raw),
            ]);
        }
        Pending::new(self.guard.table_ptr(), Entry::Scene(SceneEntry::NodeMeshGet), args)
    }
}

/// The table of meshes of a 3D scene.
#[derive(Debug)]
pub struct Scene3DMeshSuite {
    guard: SuiteGuard,
}

impl Scene3DMeshSuite {
    #[verifier::type_invariant]
    spec fn holds_own_table(self) -> bool {
        self.guard.suite() == scene3d_mesh_suite()
    }

    /// The guard that owns the acquired table.
    pub closed spec fn guard(self) -> SuiteGuard {
        self.guard
    }

    /// The (name, version) pair of this table.
    pub fn id() -> (id: SuiteId)
        ensures
            id == scene3d_mesh_suite(),
    {
        SuiteId { name: SuiteName::Scene3DMesh, version: 1 }
    }

    /// Starts the acquisition of this table from the host. With a null
    /// registry root it fails at once with "unavailable", and nothing is
    /// called.
    pub fn new(registry: &Registry) -> (r: Result<Acquire, Error>)
        ensures
            registry.null() ==> r == Err::<Acquire, Error>(Error::Unavailable),
            !registry.null() ==> r is Ok && r->Ok_0.registry() == registry.raw
                && r->Ok_0.suite() == scene3d_mesh_suite(),
    {
        Acquire::begin(registry, Self::id())
    }

    /// Wraps the guard of a completed acquisition. Returns `None` exactly when
    /// the guard owns some other table; the guard is then lost, so release it
    /// instead of handing it here.
    pub fn from_guard(guard: SuiteGuard) -> (s: Option<Self>)
        ensures
            s is Some <==> guard.suite() == scene3d_mesh_suite(),
            s matches Some(suite) ==> suite.guard() == guard,
    {
        let id = guard.id();
        let own = Self::id();
        if id == own {
            Some(Scene3DMeshSuite { guard })
        } else {
            None
        }
    }

    /// Ends the lifetime of the suite. The result is the one release call
    /// that is owed for its acquisition.
    pub fn release(self) -> (c: HostCall)
        ensures
            c@ == (CallView::Release { registry: self.guard().registry(), suite: scene3d_mesh_suite() }),
            self.guard().suite() == scene3d_mesh_suite(),
    {
        proof {
            use_type_invariant(&self);
        }
        self.guard.release()
    }

    /// Starts an independent acquisition of the same table: a copy of a suite
    /// is a second suite, released on its own.
    pub fn reacquire(&self) -> (a: Acquire)
        ensures
            a.registry() == self.guard().registry(),
            a.suite() == scene3d_mesh_suite(),
    {
        proof {
            use_type_invariant(self);
        }
        self.guard.reacquire()
    }

    /// The number of face groups of a mesh.
    pub fn face_group_buffer_count(&self, mesh_handle: &Scene3DMeshHandle) -> (p: Pending<usize>)
        ensures
            p.request() == (CallView::Invoke {
                table: self.guard().table(),
                entry: Entry::Scene(SceneEntry::FaceGroupBufferCount),
                args: seq![
                    Value::Handle(mesh_handle.raw),
                ],
                outputs: usize::template(),
            }),
    {
        let args: Vec<Value> = vec![
            Value::Handle(mesh_handle.raw),
        ];
        proof {
            assert(args@ =~= seq![
                Value::Handle(mesh_handle.raw),
            ]);
        }
        Pending::new(self.guard.table_ptr(), Entry::Scene(SceneEntry::FaceGroupBufferCount), args)
    }

    /// The number of faces in one face group of a mesh.
    pub fn face_group_buffer_size(&self, mesh_handle: &Scene3DMeshHandle, group_index: usize) -> (p: Pending<usize>)
        ensures
            p.request() == (CallView::Invoke {
                table: self.guard().table(),
                entry: Entry::Scene(SceneEntry::FaceGroupBufferSize),
                args: seq![
                    Value::Handle(mesh_handle.raw),
                    Value::Int(group_index as i32),
                ],
                outputs: usize::template(),
            }),
    {
        let args: Vec<Value> = vec![
            Value::Handle(mesh_handle.raw),
            Value::Int(index_of(group_index)),
        ];
        proof {
            assert(args@ =~= seq![
                Value::Handle(mesh_handle.raw),
                Value::Int(group_index as i32),
            ]);
        }
        Pending::new(self.guard.table_ptr(), Entry::Scene(SceneEntry::FaceGroupBufferSize), args)
    }

    /// The face indices of one face group of a mesh: first the host is asked
    /// for the number of faces, then for that many indices.
    pub fn face_group_buffer_fill(&self, mesh_handle: &Scene3DMeshHandle, group_index: usize) -> (m: FaceGroupFill)
        ensures
            m@ == FaceGroupFillView::initial(
                self.guard().table(),
                mesh_handle.raw,
                group_index as i32,
            ),
    {
        FaceGroupFill::start(self.guard.table_ptr(), mesh_handle.raw, index_of(group_index))
    }

    /// The code of the side whose material a face group of a mesh uses.
    pub fn get_material_side_for_face_group(&self, mesh_handle: &Scene3DMeshHandle, group_index: usize) -> (p: Pending<u32>)
        ensures
            p.request() == (CallView::Invoke {
                table: self.guard().table(),
                entry: Entry::Scene(SceneEntry::GetMaterialSideForFaceGroup),
                args: seq![
                    Value::Handle(mesh_handle.raw),
                    Value::Int(group_index as i32),
                ],
                outputs: u32::template(),
            }),
    {
        let args: Vec<Value> = vec![
            Value::Handle(mesh_handle.raw),
            Value::Int(index_of(group_index)),
        ];
        proof {
            assert(args@ =~= seq![
                Value::Handle(mesh_handle.raw),
                Value::Int(group_index as i32),
            ]);
        }
        Pending::new(self.guard.table_ptr(), Entry::Scene(SceneEntry::GetMaterialSideForFaceGroup), args)
    }

    /// The number of vertices and the number of faces of a mesh.
    pub fn mesh_get_info(&self, mesh_handle: &Scene3DMeshHandle) -> (p: Pending<(usize, usize)>)
        ensures
            p.request() == (CallView::Invoke {
                table: self.guard().table(),
                entry: Entry::Scene(SceneEntry::MeshGetInfo),
                args: seq![
                    Value::Handle(mesh_handle.raw),
                ],
                outputs: <(usize, usize)>::template(),
            }),
    {
        let args: Vec<Value> = vec![
            Value::Handle(mesh_handle.raw),
        ];
        proof {
            assert(args@ =~= seq![
                Value::Handle(mesh_handle.raw),
            ]);
        }
        Pending::new(self.guard.table_ptr(), Entry::Scene(SceneEntry::MeshGetInfo), args)
    }

    /// The size in bytes of one element of a vertex buffer of a type, given
    /// by its code.
    pub fn vertex_buffer_element_size(&self, vertex_type: u32) -> (p: Query)
        ensures
            p.request() == (CallView::Invoke {
                table: self.guard().table(),
                entry: Entry::Scene(SceneEntry::VertexBufferElementSize),
                args: seq![
                    Value::Word(vertex_type),
                ],
                outputs: Seq::<Value>::empty(),
            }),
    {
        let args: Vec<Value> = vec![
            Value::Word(vertex_type),
        ];
        proof {
            assert(args@ =~= seq![
                Value::Word(vertex_type),
            ]);
        }
        Query::new(self.guard.table_ptr(), Entry::Scene(SceneEntry::VertexBufferElementSize), args)
    }

    /// The size in bytes of one element of a face buffer of a type, given by
    /// its code.
    pub fn face_index_element_size(&self, face_type: u32) -> (p: Query)
        ensures
            p.request() == (CallView::Invoke {
                table: self.guard().table(),
                entry: Entry::Scene(SceneEntry::FaceBufferElementSize),
                args: seq![
                    Value::Word(face_type),
                ],
                outputs: Seq::<Value>::empty(),
            }),
    {
        let args: Vec<Value> = vec![
            Value::Word(face_type),
        ];
        proof {
            assert(args@ =~= seq![
                Value::Word(face_type),
            ]);
        }
        Query::new(self.guard.table_ptr(), Entry::Scene(SceneEntry::FaceBufferElementSize), args)
    }

    /// The size in bytes of one element of a texture coordinate buffer of a
    /// type, given by its code.
    pub fn uv_buffer_element_size(&self, uv_type: u32) -> (p: Query)
        ensures
            p.request() == (CallView::Invoke {
                table: self.guard().table(),
                entry: Entry::Scene(SceneEntry::UvBufferElementSize),
                args: seq![
                    Value::Word(uv_type),
                ],
                outputs: Seq::<Value>::empty(),
            }),
    {
        let args: Vec<Value> = vec![
            Value::Word(uv_type),
        ];
        proof {
            assert(args@ =~= seq![
                Value::Word(uv_type),
            ]);
        }
        Query::new(self.guard.table_ptr(), Entry::Scene(SceneEntry::UvBufferElementSize), args)
    }

    /// The vertices, face indices and texture coordinates of a mesh: first
    /// the host is asked for the number of vertices and faces, then for
    /// three coordinates per vertex, four indices per face, and two
    /// texture coordinates per index.
    pub fn mesh_fill_buffers(
        &self,
        mesh_handle: &Scene3DMeshHandle,
        vertex_type: u32,
        face_type: u32,
        uv_type: u32,
    ) -> (m: MeshFill)
        ensures
            m@ == MeshFillView::initial(
                self.guard().table(),
                mesh_handle.raw,
                vertex_type,
                face_type,
                uv_type,
            ),
    {
        MeshFill::start(self.guard.table_ptr(), mesh_handle.raw, vertex_type, face_type, uv_type)
    }
}

/// Where a [`Scene3DSetup`] stands.
#[derive(Clone, Copy, Debug, PartialEq, Eq, Structural)]
pub enum SetupPhase {
    /// The lookup of the scene table is the next call.
    Acquiring,
    /// The table is held; the allocation of the scene is the next call.
    AllocatingScene { table: usize },
    /// The scene exists; the allocation of its texture context is next.
    AllocatingContext { table: usize, scene: usize },
    /// The texture context could not be had; the scene is disposed of next.
    DisposingScene { table: usize, scene: usize, error: Error },
    /// Nothing is owned any more but the table, which is released next.
    Releasing { error: Error },
    /// The setup failed, and nothing is owned.
    Failed { error: Error },
    /// The table, the scene and its texture context are owned.
    Ready { table: usize, scene: usize, texture_context: usize },
}

/// The mathematical content of a [`Scene3DSetup`].
#[derive(Clone, Copy, Debug, PartialEq, Eq, Structural)]
pub struct SetupView {
    pub registry: usize,
    pub in_data: usize,
    pub render_context: usize,
    pub texture_cache: usize,
    pub phase: SetupPhase,
}

/// Whether a successful reply carries one handle in its one output slot.
pub open spec fn names_handle(reply: ReplyView) -> bool {
    reply.succeeded() ==> reply.outputs.len() == 1 && reply.outputs[0] is Handle
}

impl SetupView {
    /// The machine before its first call. With a null registry root it has
    /// failed at once and never calls the host.
    pub open spec fn initial(
        registry: usize,
        in_data: usize,
        render_context: usize,
        texture_cache: usize,
    ) -> Self {
        SetupView {
            registry,
            in_data,
            render_context,
            texture_cache,
            phase: if registry == 0 {
                SetupPhase::Failed { error: Error::Unavailable }
            } else {
                SetupPhase::Acquiring
            },
        }
    }

    /// Whether `reply` answers the call that the machine asks for.
    pub open spec fn accepts(self, reply: ReplyView) -> bool {
        match self.phase {
            SetupPhase::Acquiring => names_table(reply),
            SetupPhase::AllocatingScene { .. } => names_handle(reply),
            SetupPhase::AllocatingContext { .. } => names_handle(reply),
            SetupPhase::DisposingScene { .. } => true,
            SetupPhase::Releasing { .. } => true,
            SetupPhase::Failed { .. } => false,
            SetupPhase::Ready { .. } => false,
        }
    }

    /// The call that allocates the scene.
    pub open spec fn scene_alloc(table: usize) -> CallView {
        CallView::Invoke {
            table,
            entry: Entry::Scene(SceneEntry::SceneAlloc),
            args: Seq::<Value>::empty(),
            outputs: seq![Value::Handle(0)],
        }
    }

    /// The call that allocates the texture context of the scene. Its last
    /// argument asks the host not to unlock all textures.
    pub open spec fn context_alloc(self, table: usize) -> CallView {
        CallView::Invoke {
            table,
            entry: Entry::Scene(SceneEntry::TextureContextAlloc),
            args: seq![
                Value::Handle(self.in_data),
                Value::Handle(self.render_context),
                Value::Handle(self.texture_cache),
                Value::Byte(0),
            ],
            outputs: seq![Value::Handle(0)],
        }
    }

    /// The call that disposes of a scene.
    pub open spec fn scene_dispose(table: usize, scene: usize) -> CallView {
        CallView::Invoke {
            table,
            entry: Entry::Scene(SceneEntry::SceneDispose),
            args: seq![Value::Handle(scene)],
            outputs: Seq::<Value>::empty(),
        }
    }
}

impl Machine for SetupView {
    open spec fn next_call(self) -> Option<CallView> {
        match self.phase {
            SetupPhase::Acquiring => Some(
                CallView::Acquire { registry: self.registry, suite: scene3d_suite() },
            ),
            SetupPhase::AllocatingScene { table } => Some(SetupView::scene_alloc(table)),
            SetupPhase::AllocatingContext { table, .. } => Some(self.context_alloc(table)),
            SetupPhase::DisposingScene { table, scene, .. } => Some(
                SetupView::scene_dispose(table, scene),
            ),
            SetupPhase::Releasing { .. } => Some(
                CallView::Release { registry: self.registry, suite: scene3d_suite() },
            ),
            SetupPhase::Failed { .. } => None,
            SetupPhase::Ready { .. } => None,
        }
    }

    open spec fn step(self, reply: ReplyView) -> Self {
        let phase = match self.phase {
            SetupPhase::Acquiring => if reply.succeeded() {
                SetupPhase::AllocatingScene { table: reply.outputs[0]->Handle_0 }
            } else {
                SetupPhase::Failed { error: Error::Unavailable }
            },
            SetupPhase::AllocatingScene { table } => if reply.succeeded() {
                SetupPhase::AllocatingContext { table, scene: reply.outputs[0]->Handle_0 }
            } else {
                SetupPhase::Releasing { error: Error::Host(reply.status) }
            },
            SetupPhase::AllocatingContext { table, scene } => if reply.succeeded() {
                SetupPhase::Ready { table, scene, texture_context: reply.outputs[0]->Handle_0 }
            } else {
                SetupPhase::DisposingScene { table, scene, error: Error::Host(reply.status) }
            },
            SetupPhase::DisposingScene { error, .. } => SetupPhase::Releasing { error },
            SetupPhase::Releasing { error } => SetupPhase::Failed { error },
            SetupPhase::Failed { error } => SetupPhase::Failed { error },
            SetupPhase::Ready { table, scene, texture_context } => SetupPhase::Ready {
                table,
                scene,
                texture_context,
            },
        };
        SetupView { phase, ..self }
    }
}

/// The construction of a [`Scene3D`]: the scene table is acquired, a scene is
/// allocated, and a texture context is allocated for it. If a step fails,
/// what the earlier steps obtained is given back before the machine ends
/// with the failure.
#[derive(Debug)]
pub struct Scene3DSetup {
    state: SetupView,
}

impl View for Scene3DSetup {
    type V = SetupView;

    closed spec fn view(&self) -> SetupView {
        self.state
    }
}

impl Scene3DSetup {
    #[verifier::type_invariant]
    spec fn has_registry_while_owning(self) -> bool {
        !(self.state.phase is Failed) ==> self.state.registry != 0
    }

    /// The call to perform next, or `None` when the machine is done.
    pub fn call(&self) -> (c: Option<HostCall>)
        ensures
            c is Some <==> self@.next_call() is Some,
            c matches Some(call) ==> call@ == self@.next_call()->Some_0,
    {
        let registry: usize = self.state.registry;
        match self.state.phase {
            SetupPhase::Acquiring => Some(
                HostCall::Acquire { registry, suite: Scene3D::id() },
            ),
            SetupPhase::AllocatingScene { table } => {
                let args: Vec<Value> = Vec::new();
                let outputs: Vec<Value> = vec![Value::Handle(0)];
                proof {
                    assert(args@ =~= Seq::<Value>::empty());
                    assert(outputs@ =~= seq![Value::Handle(0)]);
                }
                Some(
                    HostCall::Invoke {
                        table,
                        entry: Entry::Scene(SceneEntry::SceneAlloc),
                        args,
                        outputs,
                    },
                )
            },
            SetupPhase::AllocatingContext { table, .. } => {
                let args: Vec<Value> = vec![
                    Value::Handle(self.state.in_data),
                    Value::Handle(self.state.render_context),
                    Value::Handle(self.state.texture_cache),
                    Value::Byte(0),
                ];
                let outputs: Vec<Value> = vec![Value::Handle(0)];
                proof {
                    assert(args@ =~= seq![
                        Value::Handle(self.state.in_data),
                        Value::Handle(self.state.render_context),
                        Value::Handle(self.state.texture_cache),
                        Value::Byte(0),
                    ]);
                    assert(outputs@ =~= seq![Value::Handle(0)]);
                }
                Some(
                    HostCall::Invoke {
                        table,
                        entry: Entry::Scene(SceneEntry::TextureContextAlloc),
                        args,
                        outputs,
                    },
                )
            },
            SetupPhase::DisposingScene { table, scene, .. } => {
                let args: Vec<Value> = vec![Value::Handle(scene)];
                let outputs: Vec<Value> = Vec::new();
                proof {
                    assert(args@ =~= seq![Value::Handle(scene)]);
                    assert(outputs@ =~= Seq::<Value>::empty());
                }
                Some(
                    HostCall::Invoke {
                        table,
                        entry: Entry::Scene(SceneEntry::SceneDispose),
                        args,
                        outputs,
                    },
                )
            },
            SetupPhase::Releasing { .. } => Some(
                HostCall::Release { registry, suite: Scene3D::id() },
            ),
            SetupPhase::Failed { .. } => None,
            SetupPhase::Ready { .. } => None,
        }
    }

    /// Whether `reply` can be handed to [`Scene3DSetup::advance`].
    pub fn accepts(&self, reply: &HostReply) -> (ok: bool)
        ensures
            ok == self@.accepts(reply@),
    {
        match self.state.phase {
            SetupPhase::Acquiring
            | SetupPhase::AllocatingScene { .. }
            | SetupPhase::AllocatingContext { .. } => {
                if reply.status != STATUS_OK {
                    true
                } else if reply.outputs.len() != 1 {
                    false
                } else {
                    decode_handle(&reply.outputs, 0).is_some()
                }
            },
            SetupPhase::DisposingScene { .. } => true,
            SetupPhase::Releasing { .. } => true,
            SetupPhase::Failed { .. } => false,
            SetupPhase::Ready { .. } => false,
        }
    }

    /// Hands the machine the host's reply to the call it asked for.
    pub fn advance(self, reply: &HostReply) -> (m: Self)
        requires
            self@.accepts(reply@),
        ensures
            m@ == self@.step(reply@),
    {
        proof {
            use_type_invariant(&self);
        }
        let state = self.state;
        let ok: bool = reply.status == STATUS_OK;
        let phase = match state.phase {
            SetupPhase::Acquiring => {
                if ok {
                    SetupPhase::AllocatingScene {
                        table: decode_handle(&reply.outputs, 0).unwrap(),
                    }
                } else {
                    SetupPhase::Failed { error: Error::Unavailable }
                }
            },
            SetupPhase::AllocatingScene { table } => {
                if ok {
                    SetupPhase::AllocatingContext {
                        table,
                        scene: decode_handle(&reply.outputs, 0).unwrap(),
                    }
                } else {
                    SetupPhase::Releasing { error: Error::Host(reply.status) }
                }
            },
            SetupPhase::AllocatingContext { table, scene } => {
                if ok {
                    SetupPhase::Ready {
                        table,
                        scene,
                        texture_context: decode_handle(&reply.outputs, 0).unwrap(),
                    }
                } else {
                    SetupPhase::DisposingScene { table, scene, error: Error::Host(reply.status) }
                }
            },
            SetupPhase::DisposingScene { error, .. } => SetupPhase::Releasing { error },
            SetupPhase::Releasing { error } => SetupPhase::Failed { error },
            SetupPhase::Failed { error } => SetupPhase::Failed { error },
            SetupPhase::Ready { table, scene, texture_context } => SetupPhase::Ready {
                table,
                scene,
                texture_context,
            },
        };
        Scene3DSetup {
            state: SetupView {
                registry: state.registry,
                in_data: state.in_data,
                render_context: state.render_context,
                texture_cache: state.texture_cache,
                phase,
            },
        }
    }

    /// The scene, or the failure, once the machine is done.
    pub fn finish(self) -> (r: Option<Result<Scene3D, Error>>)
        ensures
            r is Some <==> self@.next_call() is None,
            self@.phase matches SetupPhase::Failed { error } ==> r == Some(
                Err::<Scene3D, Error>(error),
            ),
            self@.phase matches SetupPhase::Ready { table, scene, texture_context } ==> {
                &&& r matches Some(Ok(s))
                &&& s.guard().registry() == self@.registry
                &&& s.guard().table() == table
                &&& s.scene() == scene
                &&& s.texture_context() == texture_context
                &&& s.in_data() == self@.in_data
                &&& s.render_context() == self@.render_context
            },
    {
        proof {
            use_type_invariant(&self);
        }
        match self.state.phase {
            SetupPhase::Failed { error } => Some(Err(error)),
            SetupPhase::Ready { table, scene, texture_context } => {
                let registry = Registry::from_raw(self.state.registry);
                match SuiteGuard::adopt(&registry, Scene3D::id(), table) {
                    Some(guard) => Some(
                        Ok(
                            Scene3D {
                                guard,
                                scene3d: scene,
                                texture_context,
                                in_data: self.state.in_data,
                                render_context: self.state.render_context,
                            },
                        ),
                    ),
                    None => Some(Err(Error::Unavailable)),
                }
            },
            _ => None,
        }
    }
}

/// A 3D scene of the host, with the table it is used through and the
/// texture context that was allocated for it. All three are owned.
#[derive(Debug)]
pub struct Scene3D {
    guard: SuiteGuard,
    scene3d: usize,
    texture_context: usize,
    in_data: usize,
    render_context: usize,
}

impl Scene3D {
    #[verifier::type_invariant]
    spec fn holds_own_table(self) -> bool {
        self.guard.suite() == scene3d_suite()
    }

    /// The guard that owns the scene table.
    pub closed spec fn guard(self) -> SuiteGuard {
        self.guard
    }

    /// The raw handle of the scene.
    pub closed spec fn scene(self) -> usize {
        self.scene3d
    }

    /// The raw handle of the texture context.
    pub closed spec fn texture_context(self) -> usize {
        self.texture_context
    }

    /// The input block of the render request that the scene belongs to.
    pub closed spec fn in_data(self) -> usize {
        self.in_data
    }

    /// The render context of the render request that the scene belongs to.
    pub closed spec fn render_context(self) -> usize {
        self.render_context
    }

    /// The (name, version) pair of the scene table.
    pub fn id() -> (id: SuiteId)
        ensures
            id == scene3d_suite(),
    {
        SuiteId { name: SuiteName::Scene3D, version: 2 }
    }

    /// Starts the construction of a scene for a render request. With a null
    /// registry root it fails at once with "unavailable", and nothing is
    /// called.
    pub fn new(
        pica_basic_suite_handle: &Registry,
        in_data_handle: InDataHandle,
        render_context: RenderContextHandle,
        global_texture_cache_handle: Scene3DTextureCacheHandle,
    ) -> (m: Scene3DSetup)
        ensures
            m@ == SetupView::initial(
                pica_basic_suite_handle.raw,
                in_data_handle.raw,
                render_context.raw,
                global_texture_cache_handle.raw,
            ),
    {
        let phase = if pica_basic_suite_handle.raw == 0 {
            SetupPhase::Failed { error: Error::Unavailable }
        } else {
            SetupPhase::Acquiring
        };
        Scene3DSetup {
            state: SetupView {
                registry: pica_basic_suite_handle.raw,
                in_data: in_data_handle.raw,
                render_context: render_context.raw,
                texture_cache: global_texture_cache_handle.raw,
                phase,
            },
        }
    }

    /// The raw handle of the scene.
    pub fn get_scene3d_ptr(&self) -> (raw: usize)
        ensures
            raw == self.scene(),
    {
        self.scene3d
    }

    /// The address of the scene table.
    pub fn get_scene3d_suite_ptr(&self) -> (table: usize)
        ensures
            table == self.guard().table(),
    {
        self.guard.table_ptr()
    }

    /// Prepares the empty scene for motion blur with a number of samples and
    /// a sampling method, given by its code.
    pub fn setup_motion_blur_samples(&self, motion_samples: usize, sample_method: u32) -> (p: Pending<()>)
        ensures
            p.request() == (CallView::Invoke {
                table: self.guard().table(),
                entry: Entry::Scene(SceneEntry::SetupMotionBlurSamples),
                args: seq![
                    Value::Handle(self.in_data()),
                    Value::Handle(self.render_context()),
                    Value::Handle(self.scene()),
                    Value::Int(motion_samples as i32),
                    Value::Word(sample_method),
                ],
                outputs: <()>::template(),
            }),
    {
        let args: Vec<Value> = vec![
            Value::Handle(self.in_data),
            Value::Handle(self.render_context),
            Value::Handle(self.scene3d),
            Value::Int(index_of(motion_samples)),
            Value::Word(sample_method),
        ];
        proof {
            assert(args@ =~= seq![
                Value::Handle(self.in_data()),
                Value::Handle(self.render_context()),
                Value::Handle(self.scene()),
                Value::Int(motion_samples as i32),
                Value::Word(sample_method),
            ]);
        }
        Pending::new(self.guard.table_ptr(), Entry::Scene(SceneEntry::SetupMotionBlurSamples), args)
    }

    /// Builds the scene. The host reports progress to, and asks for an abort
    /// from, the callback at the given address.
    pub fn build(&self, progress_abort_callback_ptr: usize) -> (p: Pending<()>)
        ensures
            p.request() == (CallView::Invoke {
                table: self.guard().table(),
                entry: Entry::Scene(SceneEntry::Build),
                args: seq![
                    Value::Handle(self.in_data()),
                    Value::Handle(self.render_context()),
                    Value::Handle(self.texture_context()),
                    Value::Handle(progress_abort_callback_ptr),
                    Value::Handle(self.scene()),
                ],
                outputs: <()>::template(),
            }),
    {
        let args: Vec<Value> = vec![
            Value::Handle(self.in_data),
            Value::Handle(self.render_context),
            Value::Handle(self.texture_context),
            Value::Handle(progress_abort_callback_ptr),
            Value::Handle(self.scene3d),
        ];
        proof {
            assert(args@ =~= seq![
                Value::Handle(self.in_data()),
                Value::Handle(self.render_context()),
                Value::Handle(self.texture_context()),
                Value::Handle(progress_abort_callback_ptr),
                Value::Handle(self.scene()),
            ]);
        }
        Pending::new(self.guard.table_ptr(), Entry::Scene(SceneEntry::Build), args)
    }

    /// The number of lights in the scene.
    pub fn scene_num_lights(&self) -> (p: Pending<usize>)
        ensures
            p.request() == (CallView::Invoke {
                table: self.guard().table(),
                entry: Entry::Scene(SceneEntry::SceneNumLights),
                args: seq![
                    Value::Handle(self.scene()),
                ],
                outputs: usize::template(),
            }),
    {
        let args: Vec<Value> = vec![
            Value::Handle(self.scene3d),
        ];
        proof {
            assert(args@ =~= seq![
                Value::Handle(self.scene()),
            ]);
        }
        Pending::new(self.guard.table_ptr(), Entry::Scene(SceneEntry::SceneNumLights), args)
    }

    /// Has the host visit the nodes of the scene. The visitor and the context
    /// it is handed are given by their addresses, the flags by their code.
    pub fn node_traverser(&self, node_visitor_func: usize, reference_context: usize, flags: u32) -> (p: Pending<()>)
        ensures
            p.request() == (CallView::Invoke {
                table: self.guard().table(),
                entry: Entry::Scene(SceneEntry::NodeTraverser),
                args: seq![
                    Value::Handle(self.scene()),
                    Value::Handle(node_visitor_func),
                    Value::Handle(reference_context),
                    Value::Word(flags),
                ],
                outputs: <()>::template(),
            }),
    {
        let args: Vec<Value> = vec![
            Value::Handle(self.scene3d),
            Value::Handle(node_visitor_func),
            Value::Handle(reference_context),
            Value::Word(flags),
        ];
        proof {
            assert(args@ =~= seq![
                Value::Handle(self.scene()),
                Value::Handle(node_visitor_func),
                Value::Handle(reference_context),
                Value::Word(flags),
            ]);
        }
        Pending::new(self.guard.table_ptr(), Entry::Scene(SceneEntry::NodeTraverser), args)
    }

    /// The calls that giving the scene up makes: the texture context is
    /// disposed of, then the scene, then the table is released.
    pub open spec fn teardown(self) -> Seq<CallView> {
        seq![
            CallView::Invoke {
                table: self.guard().table(),
                entry: Entry::Scene(SceneEntry::TextureContextDispose),
                args: seq![Value::Handle(self.texture_context())],
                outputs: Seq::<Value>::empty(),
            },
            CallView::Invoke {
                table: self.guard().table(),
                entry: Entry::Scene(SceneEntry::SceneDispose),
                args: seq![Value::Handle(self.scene())],
                outputs: Seq::<Value>::empty(),
            },
            CallView::Release { registry: self.guard().registry(), suite: scene3d_suite() },
        ]
    }

    /// Gives the scene up. Every call of the sequence is made whatever the
    /// host answers.
    pub fn release(self) -> (s: Sequence)
        ensures
            s@ == (SequenceView {
                calls: self.teardown(),
                cursor: 0,
                stops: false,
                failure: None,
            }),
    {
        proof {
            use_type_invariant(&self);
        }
        let Scene3D { guard, scene3d, texture_context, in_data, render_context } = self;
        let table: usize = guard.table_ptr();
        let context_args: Vec<Value> = vec![Value::Handle(texture_context)];
        let scene_args: Vec<Value> = vec![Value::Handle(scene3d)];
        proof {
            assert(context_args@ =~= seq![Value::Handle(texture_context)]);
            assert(scene_args@ =~= seq![Value::Handle(scene3d)]);
        }
        let dispose_context: HostCall = Pending::<()>::new(
            table,
            Entry::Scene(SceneEntry::TextureContextDispose),
            context_args,
        ).call();
        let dispose_scene: HostCall = Pending::<()>::new(
            table,
            Entry::Scene(SceneEntry::SceneDispose),
            scene_args,
        ).call();
        let release: HostCall = guard.release();
        let calls: Vec<HostCall> = vec![dispose_context, dispose_scene, release];
        proof {
            assert(call_views(calls@) =~= self.teardown());
        }
        Sequence::run_all(calls)
    }
}

/// When every step succeeds, the construction of a scene makes exactly three
/// calls: the lookup of the scene table, the allocation of the scene, and
/// the allocation of its texture context. Nothing is released: the scene
/// owns what was obtained.
pub proof fn lemma_scene_setup_succeeds(start: SetupView, replies: Seq<ReplyView>)
    requires
        start.phase is Acquiring,
        replies.len() >= 3,
        replies[0].succeeded(),
        replies[1].succeeded(),
        replies[2].succeeded(),
    ensures
        trace(start, replies) == seq![
            CallView::Acquire { registry: start.registry, suite: scene3d_suite() },
            SetupView::scene_alloc(replies[0].outputs[0]->Handle_0),
            start.context_alloc(replies[0].outputs[0]->Handle_0),
        ],
        after(start, replies).phase == (SetupPhase::Ready {
            table: replies[0].outputs[0]->Handle_0,
            scene: replies[1].outputs[0]->Handle_0,
            texture_context: replies[2].outputs[0]->Handle_0,
        }),
{
    let s1 = start.step(replies[0]);
    let s2 = s1.step(replies[1]);
    let s3 = s2.step(replies[2]);
    let r1 = replies.skip(1);
    let r2 = r1.skip(1);
    let r3 = r2.skip(1);
    assert(r1[0] == replies[1]);
    assert(r2[0] == replies[2]);
    assert(trace(s3, r3) == Seq::<CallView>::empty());
    assert(after(s3, r3) == s3);
    assert(trace(s2, r2) =~= seq![start.context_alloc(replies[0].outputs[0]->Handle_0)]);
    assert(after(s2, r2) == s3);
    assert(trace(s1, r1) =~= seq![
        SetupView::scene_alloc(replies[0].outputs[0]->Handle_0),
        start.context_alloc(replies[0].outputs[0]->Handle_0),
    ]);
    assert(after(s1, r1) == s3);
    assert(trace(start, replies) =~= seq![
        CallView::Acquire { registry: start.registry, suite: scene3d_suite() },
        SetupView::scene_alloc(replies[0].outputs[0]->Handle_0),
        start.context_alloc(replies[0].outputs[0]->Handle_0),
    ]);
}

/// When the scene cannot be allocated, the table that was acquired for it is
/// released exactly once, and the machine ends with the failure of the
/// allocation.
pub proof fn lemma_scene_setup_releases_after_failed_scene(
    start: SetupView,
    replies: Seq<ReplyView>,
)
    requires
        start.phase is Acquiring,
        replies.len() >= 3,
        replies[0].succeeded(),
        !replies[1].succeeded(),
    ensures
        trace(start, replies) == seq![
            CallView::Acquire { registry: start.registry, suite: scene3d_suite() },
            SetupView::scene_alloc(replies[0].outputs[0]->Handle_0),
            CallView::Release { registry: start.registry, suite: scene3d_suite() },
        ],
        after(start, replies).phase == (SetupPhase::Failed {
            error: Error::Host(replies[1].status),
        }),
{
    let s1 = start.step(replies[0]);
    let s2 = s1.step(replies[1]);
    let s3 = s2.step(replies[2]);
    let r1 = replies.skip(1);
    let r2 = r1.skip(1);
    let r3 = r2.skip(1);
    assert(r1[0] == replies[1]);
    assert(r2[0] == replies[2]);
    assert(trace(s3, r3) == Seq::<CallView>::empty());
    assert(after(s3, r3) == s3);
    assert(trace(s2, r2) =~= seq![
        CallView::Release { registry: start.registry, suite: scene3d_suite() },
    ]);
    assert(after(s2, r2) == s3);
    assert(trace(s1, r1) =~= seq![
        SetupView::scene_alloc(replies[0].outputs[0]->Handle_0),
        CallView::Release { registry: start.registry, suite: scene3d_suite() },
    ]);
    assert(after(s1, r1) == s3);
    assert(trace(start, replies) =~= seq![
        CallView::Acquire { registry: start.registry, suite: scene3d_suite() },
        SetupView::scene_alloc(replies[0].outputs[0]->Handle_0),
        CallView::Release { registry: start.registry, suite: scene3d_suite() },
    ]);
}

/// When the texture context cannot be allocated, the scene is disposed of
/// exactly once, with the raw handle that its allocation returned, and then
/// the table is released exactly once. The machine ends with the failure of
/// the allocation.
pub proof fn lemma_scene_setup_unwinds_after_failed_context(
    start: SetupView,
    replies: Seq<ReplyView>,
)
    requires
        start.phase is Acquiring,
        replies.len() >= 5,
        replies[0].succeeded(),
        replies[1].succeeded(),
        !replies[2].succeeded(),
    ensures
        trace(start, replies) == seq![
            CallView::Acquire { registry: start.registry, suite: scene3d_suite() },
            SetupView::scene_alloc(replies[0].outputs[0]->Handle_0),
            start.context_alloc(replies[0].outputs[0]->Handle_0),
            SetupView::scene_dispose(
                replies[0].outputs[0]->Handle_0,
                replies[1].outputs[0]->Handle_0,
            ),
            CallView::Release { registry: start.registry, suite: scene3d_suite() },
        ],
        after(start, replies).phase == (SetupPhase::Failed {
            error: Error::Host(replies[2].status),
        }),
{
    let table = replies[0].outputs[0]->Handle_0;
    let scene = replies[1].outputs[0]->Handle_0;
    let release = CallView::Release { registry: start.registry, suite: scene3d_suite() };
    let s1 = start.step(replies[0]);
    let s2 = s1.step(replies[1]);
    let s3 = s2.step(replies[2]);
    let s4 = s3.step(replies[3]);
    let s5 = s4.step(replies[4]);
    let r1 = replies.skip(1);
    let r2 = r1.skip(1);
    let r3 = r2.skip(1);
    let r4 = r3.skip(1);
    let r5 = r4.skip(1);
    assert(r1[0] == replies[1]);
    assert(r2[0] == replies[2]);
    assert(r3[0] == replies[3]);
    assert(r4[0] == replies[4]);
    assert(trace(s5, r5) == Seq::<CallView>::empty());
    assert(after(s5, r5) == s5);
    assert(trace(s4, r4) =~= seq![release]);
    assert(after(s4, r4) == s5);
    assert(trace(s3, r3) =~= seq![SetupView::scene_dispose(table, scene), release]);
    assert(after(s3, r3) == s5);
    assert(trace(s2, r2) =~= seq![
        start.context_alloc(table),
        SetupView::scene_dispose(table, scene),
        release,
    ]);
    assert(after(s2, r2) == s5);
    assert(trace(s1, r1) =~= seq![
        SetupView::scene_alloc(table),
        start.context_alloc(table),
        SetupView::scene_dispose(table, scene),
        release,
    ]);
    assert(after(s1, r1) == s5);
    assert(trace(start, replies) =~= seq![
        CallView::Acquire { registry: start.registry, suite: scene3d_suite() },
        SetupView::scene_alloc(table),
        start.context_alloc(table),
        SetupView::scene_dispose(table, scene),
        release,
    ]);
}

} // verus!
