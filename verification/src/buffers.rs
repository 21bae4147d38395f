//! Calls that fill a buffer whose length the host has to be asked for first.
//!
//! Each operation makes two calls: one that returns how many elements there
//! are, and one that is offered that many zeroed slots and fills them. A
//! count below zero, or one whose buffers would not fit the address space,
//! cannot be answered by any buffer; such a reply is not accepted.

use vstd::prelude::*;
use crate::call::{CallView, HostCall, HostReply, ReplyView};
use crate::entry::{Entry, SceneEntry};
use crate::error::{Error, STATUS_OK};
use crate::machine::{after, trace, Machine};
use crate::value::{all_zero, push_zeros, zeros_of, Kind, Value};

verus! {

/// Whether the values from `from` up to `to` are all of one kind.
pub open spec fn all_of_kind(slots: Seq<Value>, from: int, to: int, kind: Kind) -> bool {
    forall|i: int| from <= i < to ==> (#[trigger] slots[i]).kind_of() == kind
}

/// The integers that a list of integer values holds.
pub open spec fn ints_of(slots: Seq<Value>) -> Seq<i32> {
    Seq::new(slots.len(), |i: int| slots[i]->Int_0)
}

/// The bit patterns that a list of double values holds.
pub open spec fn doubles_of(slots: Seq<Value>) -> Seq<u64> {
    Seq::new(slots.len(), |i: int| slots[i]->Double_0)
}

/// The bytes that a list of byte values holds.
pub open spec fn bytes_of(slots: Seq<Value>) -> Seq<u8> {
    Seq::new(slots.len(), |i: int| slots[i]->Byte_0)
}

/// Checks that the values from `from` up to `to` are all of one kind.
pub fn check_kind(slots: &Vec<Value>, from: usize, to: usize, kind: Kind) -> (ok: bool)
    requires
        from <= to <= slots@.len(),
    ensures
        ok == all_of_kind(slots@, from as int, to as int, kind),
{
    let mut i: usize = from;
    while i < to
        invariant
            from <= i <= to <= slots@.len(),
            all_of_kind(slots@, from as int, i as int, kind),
        decreases to - i,
    {
        if slots[i].kind() != kind {
            return false;
        }
        i = i + 1;
    }
    true
}

/// Reads the integers that the values from `from` up to `to` hold.
pub fn collect_ints(slots: &Vec<Value>, from: usize, to: usize) -> (ints: Vec<i32>)
    requires
        from <= to <= slots@.len(),
        all_of_kind(slots@, from as int, to as int, Kind::Int),
    ensures
        ints@ == ints_of(slots@.subrange(from as int, to as int)),
{
    let mut ints: Vec<i32> = Vec::new();
    let mut i: usize = from;
    while i < to
        invariant
            from <= i <= to <= slots@.len(),
            all_of_kind(slots@, from as int, to as int, Kind::Int),
            ints@ == ints_of(slots@.subrange(from as int, i as int)),
        decreases to - i,
    {
        let v: i32 = match slots[i] {
            Value::Int(v) => v,
            _ => 0,
        };
        ints.push(v);
        i = i + 1;
        proof {
            assert(ints@ =~= ints_of(slots@.subrange(from as int, i as int)));
        }
    }
    ints
}

/// Reads the bytes that the values from `from` up to `to` hold.
pub fn collect_bytes(slots: &Vec<Value>, from: usize, to: usize) -> (bytes: Vec<u8>)
    requires
        from <= to <= slots@.len(),
        all_of_kind(slots@, from as int, to as int, Kind::Byte),
    ensures
        bytes@ == bytes_of(slots@.subrange(from as int, to as int)),
{
    let mut bytes: Vec<u8> = Vec::new();
    let mut i: usize = from;
    while i < to
        invariant
            from <= i <= to <= slots@.len(),
            all_of_kind(slots@, from as int, to as int, Kind::Byte),
            bytes@ == bytes_of(slots@.subrange(from as int, i as int)),
        decreases to - i,
    {
        let v: u8 = match slots[i] {
            Value::Byte(v) => v,
            _ => 0,
        };
        bytes.push(v);
        i = i + 1;
        proof {
            assert(bytes@ =~= bytes_of(slots@.subrange(from as int, i as int)));
        }
    }
    bytes
}

/// Reads the bit patterns that the values from `from` up to `to` hold.
pub fn collect_doubles(slots: &Vec<Value>, from: usize, to: usize) -> (bits: Vec<u64>)
    requires
        from <= to <= slots@.len(),
        all_of_kind(slots@, from as int, to as int, Kind::Double),
    ensures
        bits@ == doubles_of(slots@.subrange(from as int, to as int)),
{
    let mut bits: Vec<u64> = Vec::new();
    let mut i: usize = from;
    while i < to
        invariant
            from <= i <= to <= slots@.len(),
            all_of_kind(slots@, from as int, to as int, Kind::Double),
            bits@ == doubles_of(slots@.subrange(from as int, i as int)),
        decreases to - i,
    {
        let v: u64 = match slots[i] {
            Value::Double(v) => v,
            _ => 0,
        };
        bits.push(v);
        i = i + 1;
        proof {
            assert(bits@ =~= doubles_of(slots@.subrange(from as int, i as int)));
        }
    }
    bits
}

/// Where a [`FaceGroupFill`] stands.
pub enum FaceGroupPhase {
    /// The number of faces is asked for next.
    Sizing,
    /// The host reported `count` faces; their indices are asked for next.
    Filling { count: i32 },
    /// Nothing is left to call.
    Done { result: Result<Seq<i32>, Error> },
}

/// The mathematical content of a [`FaceGroupFill`].
pub struct FaceGroupFillView {
    pub table: usize,
    pub mesh: usize,
    pub group: i32,
    pub phase: FaceGroupPhase,
}

impl FaceGroupFillView {
    /// The machine before its first call.
    pub open spec fn initial(table: usize, mesh: usize, group: i32) -> Self {
        FaceGroupFillView { table, mesh, group, phase: FaceGroupPhase::Sizing }
    }

    /// Whether `reply` answers the call that the machine asks for.
    pub open spec fn accepts(self, reply: ReplyView) -> bool {
        match self.phase {
            FaceGroupPhase::Sizing => reply.succeeded() ==> {
                &&& reply.outputs.len() == 1
                &&& reply.outputs[0] is Int
                &&& reply.outputs[0]->Int_0 >= 0
            },
            FaceGroupPhase::Filling { count } => reply.succeeded() ==> {
                &&& reply.outputs.len() == count
                &&& all_of_kind(reply.outputs, 0, count as int, Kind::Int)
            },
            FaceGroupPhase::Done { .. } => false,
        }
    }
}

impl Machine for FaceGroupFillView {
    open spec fn next_call(self) -> Option<CallView> {
        match self.phase {
            FaceGroupPhase::Sizing => Some(
                CallView::Invoke {
                    table: self.table,
                    entry: Entry::Scene(SceneEntry::FaceGroupBufferSize),
                    args: seq![Value::Handle(self.mesh), Value::Int(self.group)],
                    outputs: seq![Value::Int(0)],
                },
            ),
            FaceGroupPhase::Filling { count } => Some(
                CallView::Invoke {
                    table: self.table,
                    entry: Entry::Scene(SceneEntry::FaceGroupBufferFill),
                    args: seq![
                        Value::Handle(self.mesh),
                        Value::Int(self.group),
                        Value::Int(count),
                    ],
                    outputs: zeros_of(Kind::Int, count as nat),
                },
            ),
            FaceGroupPhase::Done { .. } => None,
        }
    }

    open spec fn step(self, reply: ReplyView) -> Self {
        let phase = match self.phase {
            FaceGroupPhase::Sizing => if reply.succeeded() {
                FaceGroupPhase::Filling { count: reply.outputs[0]->Int_0 }
            } else {
                FaceGroupPhase::Done { result: Err(Error::Host(reply.status)) }
            },
            FaceGroupPhase::Filling { .. } => if reply.succeeded() {
                FaceGroupPhase::Done { result: Ok(ints_of(reply.outputs)) }
            } else {
                FaceGroupPhase::Done { result: Err(Error::Host(reply.status)) }
            },
            FaceGroupPhase::Done { result } => FaceGroupPhase::Done { result },
        };
        FaceGroupFillView { phase, ..self }
    }
}

enum FaceGroupState {
    Sizing,
    Filling { count: i32 },
    Done { result: Result<Vec<i32>, Error> },
}

/// The face indices of one face group of a mesh.
pub struct FaceGroupFill {
    table: usize,
    mesh: usize,
    group: i32,
    state: FaceGroupState,
}

/// The mathematical content of a result that holds a list of integers.
pub open spec fn ints_result(r: Result<Vec<i32>, Error>) -> Result<Seq<i32>, Error> {
    match r {
        Ok(v) => Ok(v@),
        Err(e) => Err(e),
    }
}

impl View for FaceGroupFill {
    type V = FaceGroupFillView;

    closed spec fn view(&self) -> FaceGroupFillView {
        FaceGroupFillView {
            table: self.table,
            mesh: self.mesh,
            group: self.group,
            phase: match self.state {
                FaceGroupState::Sizing => FaceGroupPhase::Sizing,
                FaceGroupState::Filling { count } => FaceGroupPhase::Filling { count },
                FaceGroupState::Done { result } => FaceGroupPhase::Done {
                    result: ints_result(result),
                },
            },
        }
    }
}

impl FaceGroupFill {
    #[verifier::type_invariant]
    spec fn count_is_natural(self) -> bool {
        self.state matches FaceGroupState::Filling { count } ==> count >= 0
    }

    /// Prepares the two calls for face group `group` of the mesh `mesh`,
    /// through the mesh table at `table`.
    pub fn start(table: usize, mesh: usize, group: i32) -> (m: Self)
        ensures
            m@ == FaceGroupFillView::initial(table, mesh, group),
    {
        FaceGroupFill { table, mesh, group, state: FaceGroupState::Sizing }
    }

    /// The call to perform next, or `None` when the machine is done.
    pub fn call(&self) -> (c: Option<HostCall>)
        ensures
            c is Some <==> self@.next_call() is Some,
            c matches Some(call) ==> call@ == self@.next_call()->Some_0,
    {
        proof {
            use_type_invariant(self);
        }
        match &self.state {
            FaceGroupState::Sizing => {
                let args: Vec<Value> = vec![Value::Handle(self.mesh), Value::Int(self.group)];
                let outputs: Vec<Value> = vec![Value::Int(0)];
                proof {
                    assert(args@ =~= seq![Value::Handle(self.mesh), Value::Int(self.group)]);
                    assert(outputs@ =~= seq![Value::Int(0)]);
                }
                Some(
                    HostCall::Invoke {
                        table: self.table,
                        entry: Entry::Scene(SceneEntry::FaceGroupBufferSize),
                        args,
                        outputs,
                    },
                )
            },
            FaceGroupState::Filling { count } => {
                let args: Vec<Value> = vec![
                    Value::Handle(self.mesh),
                    Value::Int(self.group),
                    Value::Int(*count),
                ];
                let mut outputs: Vec<Value> = Vec::new();
                push_zeros(&mut outputs, Kind::Int, *count as usize);
                proof {
                    assert(args@ =~= seq![
                        Value::Handle(self.mesh),
                        Value::Int(self.group),
                        Value::Int(*count),
                    ]);
                    assert(outputs@ =~= zeros_of(Kind::Int, *count as nat));
                }
                Some(
                    HostCall::Invoke {
                        table: self.table,
                        entry: Entry::Scene(SceneEntry::FaceGroupBufferFill),
                        args,
                        outputs,
                    },
                )
            },
            FaceGroupState::Done { .. } => None,
        }
    }

    /// Whether `reply` can be handed to [`FaceGroupFill::advance`].
    pub fn accepts(&self, reply: &HostReply) -> (ok: bool)
        ensures
            ok == self@.accepts(reply@),
    {
        proof {
            use_type_invariant(self);
        }
        match &self.state {
            FaceGroupState::Sizing => {
                if reply.status != STATUS_OK {
                    true
                } else if reply.outputs.len() != 1 {
                    false
                } else {
                    match reply.outputs[0] {
                        Value::Int(count) => count >= 0,
                        _ => false,
                    }
                }
            },
            FaceGroupState::Filling { count } => {
                if reply.status != STATUS_OK {
                    true
                } else if reply.outputs.len() != *count as usize {
                    false
                } else {
                    check_kind(&reply.outputs, 0, reply.outputs.len(), Kind::Int)
                }
            },
            FaceGroupState::Done { .. } => false,
        }
    }

    /// Hands the machine the host's reply to the call it asked for.
    pub fn advance(self, reply: &HostReply) -> (m: Self)
        requires
            self@.accepts(reply@),
        ensures
            m@ == self@.step(reply@),
    {
        proof {
            use_type_invariant(&self);
        }
        let FaceGroupFill { table, mesh, group, state } = self;
        let next = match state {
            FaceGroupState::Sizing => {
                if reply.status != STATUS_OK {
                    FaceGroupState::Done { result: Err(Error::Host(reply.status)) }
                } else {
                    match reply.outputs[0] {
                        Value::Int(count) => FaceGroupState::Filling { count },
                        _ => FaceGroupState::Done { result: Err(Error::Host(reply.status)) },
                    }
                }
            },
            FaceGroupState::Filling { count } => {
                if reply.status != STATUS_OK {
                    FaceGroupState::Done { result: Err(Error::Host(reply.status)) }
                } else {
                    let ints = collect_ints(&reply.outputs, 0, reply.outputs.len());
                    proof {
                        assert(reply.outputs@.subrange(0, reply.outputs@.len() as int)
                            =~= reply.outputs@);
                    }
                    FaceGroupState::Done { result: Ok(ints) }
                }
            },
            FaceGroupState::Done { result } => FaceGroupState::Done { result },
        };
        FaceGroupFill { table, mesh, group, state: next }
    }

    /// The indices, once the machine is done.
    pub fn finish(self) -> (r: Option<Result<Vec<i32>, Error>>)
        ensures
            r is Some <==> self@.phase is Done,
            r matches Some(result) ==> self@.phase == (FaceGroupPhase::Done {
                result: ints_result(result),
            }),
    {
        match self.state {
            FaceGroupState::Done { result } => Some(result),
            _ => None,
        }
    }
}

/// Where a [`MeshFill`] stands.
pub enum MeshPhase {
    /// The numbers of vertices and faces are asked for next.
    Measuring,
    /// The host reported the two numbers; the buffers are asked for next.
    Filling { vertices: i32, faces: i32 },
    /// Nothing is left to call.
    Done { result: Result<(Seq<u64>, Seq<i32>, Seq<u64>), Error> },
}

/// The mathematical content of a [`MeshFill`].
pub struct MeshFillView {
    pub table: usize,
    pub mesh: usize,
    pub vertex_type: u32,
    pub face_type: u32,
    pub uv_type: u32,
    pub phase: MeshPhase,
}

/// The length of the vertex buffer: three coordinates per vertex.
pub open spec fn vertex_len(vertices: i32) -> int {
    vertices * 3
}

/// The length of the face index buffer: four indices per face.
pub open spec fn face_len(faces: i32) -> int {
    faces * 4
}

/// The length of the texture coordinate buffer: two coordinates per index.
pub open spec fn uv_len(faces: i32) -> int {
    faces * 4 * 2
}

/// Whether buffers for these numbers of vertices and faces can exist.
pub open spec fn measurable(vertices: i32, faces: i32) -> bool {
    &&& vertices >= 0
    &&& faces >= 0
    &&& vertex_len(vertices) + face_len(faces) + uv_len(faces) <= usize::MAX
}

impl MeshFillView {
    /// The machine before its first call.
    pub open spec fn initial(
        table: usize,
        mesh: usize,
        vertex_type: u32,
        face_type: u32,
        uv_type: u32,
    ) -> Self {
        MeshFillView { table, mesh, vertex_type, face_type, uv_type, phase: MeshPhase::Measuring }
    }

    /// The zeroed slots that the filling call offers: the vertex buffer, the
    /// face index buffer, the texture coordinate buffer.
    pub open spec fn offered(vertices: i32, faces: i32) -> Seq<Value> {
        zeros_of(Kind::Double, vertex_len(vertices) as nat) + zeros_of(
            Kind::Int,
            face_len(faces) as nat,
        ) + zeros_of(Kind::Double, uv_len(faces) as nat)
    }

    /// Whether filled slots hold the three buffers.
    pub open spec fn holds_buffers(slots: Seq<Value>, vertices: i32, faces: i32) -> bool {
        let a = vertex_len(vertices);
        let b = a + face_len(faces);
        let c = b + uv_len(faces);
        &&& slots.len() == c
        &&& all_of_kind(slots, 0, a, Kind::Double)
        &&& all_of_kind(slots, a, b, Kind::Int)
        &&& all_of_kind(slots, b, c, Kind::Double)
    }

    /// The three buffers that filled slots hold.
    pub open spec fn buffers(slots: Seq<Value>, vertices: i32, faces: i32) -> (
        Seq<u64>,
        Seq<i32>,
        Seq<u64>,
    ) {
        let a = vertex_len(vertices);
        let b = a + face_len(faces);
        let c = b + uv_len(faces);
        (
            doubles_of(slots.subrange(0, a)),
            ints_of(slots.subrange(a, b)),
            doubles_of(slots.subrange(b, c)),
        )
    }

    /// Whether `reply` answers the call that the machine asks for.
    pub open spec fn accepts(self, reply: ReplyView) -> bool {
        match self.phase {
            MeshPhase::Measuring => reply.succeeded() ==> {
                &&& reply.outputs.len() == 2
                &&& reply.outputs[0] is Int
                &&& reply.outputs[1] is Int
                &&& measurable(reply.outputs[0]->Int_0, reply.outputs[1]->Int_0)
            },
            MeshPhase::Filling { vertices, faces } => reply.succeeded() ==> Self::holds_buffers(
                reply.outputs,
                vertices,
                faces,
            ),
            MeshPhase::Done { .. } => false,
        }
    }
}

impl Machine for MeshFillView {
    open spec fn next_call(self) -> Option<CallView> {
        match self.phase {
            MeshPhase::Measuring => Some(
                CallView::Invoke {
                    table: self.table,
                    entry: Entry::Scene(SceneEntry::MeshGetInfo),
                    args: seq![Value::Handle(self.mesh)],
                    outputs: seq![Value::Int(0), Value::Int(0)],
                },
            ),
            MeshPhase::Filling { vertices, faces } => Some(
                CallView::Invoke {
                    table: self.table,
                    entry: Entry::Scene(SceneEntry::MeshFillBuffers),
                    args: seq![
                        Value::Handle(self.mesh),
                        Value::Word(self.vertex_type),
                        Value::Word(self.face_type),
                        Value::Word(self.uv_type),
                    ],
                    outputs: MeshFillView::offered(vertices, faces),
                },
            ),
            MeshPhase::Done { .. } => None,
        }
    }

    open spec fn step(self, reply: ReplyView) -> Self {
        let phase = match self.phase {
            MeshPhase::Measuring => if reply.succeeded() {
                MeshPhase::Filling {
                    vertices: reply.outputs[0]->Int_0,
                    faces: reply.outputs[1]->Int_0,
                }
            } else {
                MeshPhase::Done { result: Err(Error::Host(reply.status)) }
            },
            MeshPhase::Filling { vertices, faces } => if reply.succeeded() {
                MeshPhase::Done { result: Ok(MeshFillView::buffers(reply.outputs, vertices, faces)) }
            } else {
                MeshPhase::Done { result: Err(Error::Host(reply.status)) }
            },
            MeshPhase::Done { result } => MeshPhase::Done { result },
        };
        MeshFillView { phase, ..self }
    }
}

enum MeshState {
    Measuring,
    Filling { vertices: i32, faces: i32 },
    Done { result: Result<(Vec<u64>, Vec<i32>, Vec<u64>), Error> },
}

/// The vertices, face indices and texture coordinates of a mesh.
pub struct MeshFill {
    table: usize,
    mesh: usize,
    vertex_type: u32,
    face_type: u32,
    uv_type: u32,
    state: MeshState,
}

/// The mathematical content of a result that holds the three buffers.
pub open spec fn buffers_result(r: Result<(Vec<u64>, Vec<i32>, Vec<u64>), Error>) -> Result<
    (Seq<u64>, Seq<i32>, Seq<u64>),
    Error,
> {
    match r {
        Ok(b) => Ok((b.0@, b.1@, b.2@)),
        Err(e) => Err(e),
    }
}

impl View for MeshFill {
    type V = MeshFillView;

    closed spec fn view(&self) -> MeshFillView {
        MeshFillView {
            table: self.table,
            mesh: self.mesh,
            vertex_type: self.vertex_type,
            face_type: self.face_type,
            uv_type: self.uv_type,
            phase: match self.state {
                MeshState::Measuring => MeshPhase::Measuring,
                MeshState::Filling { vertices, faces } => MeshPhase::Filling { vertices, faces },
                MeshState::Done { result } => MeshPhase::Done { result: buffers_result(result) },
            },
        }
    }
}

/// Checks whether buffers for these numbers of vertices and faces can exist.
pub fn check_measurable(vertices: i32, faces: i32) -> (ok: bool)
    ensures
        ok == measurable(vertices, faces),
{
    if vertices < 0 || faces < 0 {
        return false;
    }
    let v: u64 = vertices as u64;
    let f: u64 = faces as u64;
    let total: u64 = v * 3 + f * 4 + f * 8;
    let limit: u64 = usize::MAX as u64;
    total <= limit
}

impl MeshFill {
    #[verifier::type_invariant]
    spec fn counts_are_measurable(self) -> bool {
        self.state matches MeshState::Filling { vertices, faces } ==> measurable(vertices, faces)
    }

    /// Prepares the two calls for the mesh `mesh`, through the mesh table at
    /// `table`. The three types are given by their codes.
    pub fn start(table: usize, mesh: usize, vertex_type: u32, face_type: u32, uv_type: u32) -> (m:
        Self)
        ensures
            m@ == MeshFillView::initial(table, mesh, vertex_type, face_type, uv_type),
    {
        MeshFill { table, mesh, vertex_type, face_type, uv_type, state: MeshState::Measuring }
    }

    /// The call to perform next, or `None` when the machine is done.
    pub fn call(&self) -> (c: Option<HostCall>)
        ensures
            c is Some <==> self@.next_call() is Some,
            c matches Some(call) ==> call@ == self@.next_call()->Some_0,
    {
        proof {
            use_type_invariant(self);
        }
        match &self.state {
            MeshState::Measuring => {
                let args: Vec<Value> = vec![Value::Handle(self.mesh)];
                let outputs: Vec<Value> = vec![Value::Int(0), Value::Int(0)];
                proof {
                    assert(args@ =~= seq![Value::Handle(self.mesh)]);
                    assert(outputs@ =~= seq![Value::Int(0), Value::Int(0)]);
                }
                Some(
                    HostCall::Invoke {
                        table: self.table,
                        entry: Entry::Scene(SceneEntry::MeshGetInfo),
                        args,
                        outputs,
                    },
                )
            },
            MeshState::Filling { vertices, faces } => {
                let args: Vec<Value> = vec![
                    Value::Handle(self.mesh),
                    Value::Word(self.vertex_type),
                    Value::Word(self.face_type),
                    Value::Word(self.uv_type),
                ];
                let v: usize = *vertices as usize;
                let f: usize = *faces as usize;
                let mut outputs: Vec<Value> = Vec::new();
                push_zeros(&mut outputs, Kind::Double, v * 3);
                push_zeros(&mut outputs, Kind::Int, f * 4);
                push_zeros(&mut outputs, Kind::Double, f * 4 * 2);
                proof {
                    assert(args@ =~= seq![
                        Value::Handle(self.mesh),
                        Value::Word(self.vertex_type),
                        Value::Word(self.face_type),
                        Value::Word(self.uv_type),
                    ]);
                    assert(outputs@ =~= MeshFillView::offered(*vertices, *faces));
                }
                Some(
                    HostCall::Invoke {
                        table: self.table,
                        entry: Entry::Scene(SceneEntry::MeshFillBuffers),
                        args,
                        outputs,
                    },
                )
            },
            MeshState::Done { .. } => None,
        }
    }

    /// Whether `reply` can be handed to [`MeshFill::advance`].
    pub fn accepts(&self, reply: &HostReply) -> (ok: bool)
        ensures
            ok == self@.accepts(reply@),
    {
        proof {
            use_type_invariant(self);
        }
        match &self.state {
            MeshState::Measuring => {
                if reply.status != STATUS_OK {
                    true
                } else if reply.outputs.len() != 2 {
                    false
                } else {
                    match (reply.outputs[0], reply.outputs[1]) {
                        (Value::Int(vertices), Value::Int(faces)) => check_measurable(
                            vertices,
                            faces,
                        ),
                        _ => false,
                    }
                }
            },
            MeshState::Filling { vertices, faces } => {
                if reply.status != STATUS_OK {
                    return true;
                }
                let a: usize = *vertices as usize * 3;
                let b: usize = a + *faces as usize * 4;
                let c: usize = b + *faces as usize * 4 * 2;
                if reply.outputs.len() != c {
                    return false;
                }
                check_kind(&reply.outputs, 0, a, Kind::Double) && check_kind(
                    &reply.outputs,
                    a,
                    b,
                    Kind::Int,
                ) && check_kind(&reply.outputs, b, c, Kind::Double)
            },
            MeshState::Done { .. } => false,
        }
    }

    /// Hands the machine the host's reply to the call it asked for.
    pub fn advance(self, reply: &HostReply) -> (m: Self)
        requires
            self@.accepts(reply@),
        ensures
            m@ == self@.step(reply@),
    {
        proof {
            use_type_invariant(&self);
        }
        let MeshFill { table, mesh, vertex_type, face_type, uv_type, state } = self;
        let next = match state {
            MeshState::Measuring => {
                if reply.status != STATUS_OK {
                    MeshState::Done { result: Err(Error::Host(reply.status)) }
                } else {
                    match (reply.outputs[0], reply.outputs[1]) {
                        (Value::Int(vertices), Value::Int(faces)) => MeshState::Filling {
                            vertices,
                            faces,
                        },
                        _ => MeshState::Done { result: Err(Error::Host(reply.status)) },
                    }
                }
            },
            MeshState::Filling { vertices, faces } => {
                if reply.status != STATUS_OK {
                    MeshState::Done { result: Err(Error::Host(reply.status)) }
                } else {
                    let a: usize = vertices as usize * 3;
                    let b: usize = a + faces as usize * 4;
                    let c: usize = b + faces as usize * 4 * 2;
                    let vertex_buffer = collect_doubles(&reply.outputs, 0, a);
                    let face_index_buffer = collect_ints(&reply.outputs, a, b);
                    let uv_per_face_buffer = collect_doubles(&reply.outputs, b, c);
                    MeshState::Done {
                        result: Ok((vertex_buffer, face_index_buffer, uv_per_face_buffer)),
                    }
                }
            },
            MeshState::Done { result } => MeshState::Done { result },
        };
        MeshFill { table, mesh, vertex_type, face_type, uv_type, state: next }
    }

    /// The three buffers, once the machine is done.
    pub fn finish(self) -> (r: Option<Result<(Vec<u64>, Vec<i32>, Vec<u64>), Error>>)
        ensures
            r is Some <==> self@.phase is Done,
            r matches Some(result) ==> self@.phase == (MeshPhase::Done {
                result: buffers_result(result),
            }),
    {
        match self.state {
            MeshState::Done { result } => Some(result),
            _ => None,
        }
    }
}

/// Every slot that a filling call offers to the host holds zero.
pub proof fn lemma_offered_buffers_are_zeroed(count: i32, vertices: i32, faces: i32)
    requires
        count >= 0,
        measurable(vertices, faces),
    ensures
        all_zero(zeros_of(Kind::Int, count as nat)),
        all_zero(MeshFillView::offered(vertices, faces)),
{
}

/// When both calls succeed, the face indices of a group are read in exactly
/// two calls: the host is asked for the number of faces, and then for that
/// many indices. The result holds the indices that the host wrote, in
/// order.
pub proof fn lemma_face_group_filled_in_two_calls(
    start: FaceGroupFillView,
    replies: Seq<ReplyView>,
)
    requires
        start.phase is Sizing,
        replies.len() >= 2,
        replies[0].succeeded(),
        replies[1].succeeded(),
    ensures
        trace(start, replies) == seq![
            start.next_call()->Some_0,
            CallView::Invoke {
                table: start.table,
                entry: Entry::Scene(SceneEntry::FaceGroupBufferFill),
                args: seq![
                    Value::Handle(start.mesh),
                    Value::Int(start.group),
                    Value::Int(replies[0].outputs[0]->Int_0),
                ],
                outputs: zeros_of(Kind::Int, replies[0].outputs[0]->Int_0 as nat),
            },
        ],
        after(start, replies).phase == (FaceGroupPhase::Done {
            result: Ok(ints_of(replies[1].outputs)),
        }),
{
    let s1 = start.step(replies[0]);
    let s2 = s1.step(replies[1]);
    let r1 = replies.skip(1);
    let r2 = r1.skip(1);
    assert(r1[0] == replies[1]);
    assert(trace(s2, r2) == Seq::<CallView>::empty());
    assert(after(s2, r2) == s2);
    assert(trace(s1, r1) =~= seq![s1.next_call()->Some_0]);
    assert(after(s1, r1) == s2);
    assert(trace(start, replies) =~= seq![start.next_call()->Some_0, s1.next_call()->Some_0]);
}

/// When the host cannot say how many elements there are, it is not asked to
/// fill anything: the first call is the only one, and its failure is the
/// result.
pub proof fn lemma_unsized_buffers_are_not_filled(
    faces: FaceGroupFillView,
    mesh: MeshFillView,
    replies: Seq<ReplyView>,
)
    requires
        faces.phase is Sizing,
        mesh.phase is Measuring,
        replies.len() >= 1,
        !replies[0].succeeded(),
    ensures
        trace(faces, replies) == seq![faces.next_call()->Some_0],
        after(faces, replies).phase == (FaceGroupPhase::Done {
            result: Err(Error::Host(replies[0].status)),
        }),
        trace(mesh, replies) == seq![mesh.next_call()->Some_0],
        after(mesh, replies).phase == (MeshPhase::Done {
            result: Err(Error::Host(replies[0].status)),
        }),
{
    let f1 = faces.step(replies[0]);
    let m1 = mesh.step(replies[0]);
    let r1 = replies.skip(1);
    assert(trace(f1, r1) == Seq::<CallView>::empty());
    assert(after(f1, r1) == f1);
    assert(trace(m1, r1) == Seq::<CallView>::empty());
    assert(after(m1, r1) == m1);
    assert(trace(faces, replies) =~= seq![faces.next_call()->Some_0]);
    assert(trace(mesh, replies) =~= seq![mesh.next_call()->Some_0]);
}

/// When both calls succeed, the buffers of a mesh are read in exactly two
/// calls: the host is asked for the numbers of vertices and faces, and then
/// to fill three buffers of three values per vertex, four per face and
/// eight per face. The result holds what the host wrote, split at those
/// lengths.
pub proof fn lemma_mesh_filled_in_two_calls(start: MeshFillView, replies: Seq<ReplyView>)
    requires
        start.phase is Measuring,
        replies.len() >= 2,
        replies[0].succeeded(),
        replies[1].succeeded(),
    ensures
        trace(start, replies) == seq![
            start.next_call()->Some_0,
            CallView::Invoke {
                table: start.table,
                entry: Entry::Scene(SceneEntry::MeshFillBuffers),
                args: seq![
                    Value::Handle(start.mesh),
                    Value::Word(start.vertex_type),
                    Value::Word(start.face_type),
                    Value::Word(start.uv_type),
                ],
                outputs: MeshFillView::offered(
                    replies[0].outputs[0]->Int_0,
                    replies[0].outputs[1]->Int_0,
                ),
            },
        ],
        after(start, replies).phase == (MeshPhase::Done {
            result: Ok(
                MeshFillView::buffers(
                    replies[1].outputs,
                    replies[0].outputs[0]->Int_0,
                    replies[0].outputs[1]->Int_0,
                ),
            ),
        }),
{
    let s1 = start.step(replies[0]);
    let s2 = s1.step(replies[1]);
    let r1 = replies.skip(1);
    let r2 = r1.skip(1);
    assert(r1[0] == replies[1]);
    assert(trace(s2, r2) == Seq::<CallView>::empty());
    assert(after(s2, r2) == s2);
    assert(trace(s1, r1) =~= seq![s1.next_call()->Some_0]);
    assert(after(s1, r1) == s2);
    assert(trace(start, replies) =~= seq![start.next_call()->Some_0, s1.next_call()->Some_0]);
}

} // verus!
