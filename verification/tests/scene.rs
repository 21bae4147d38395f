use plugin_suites::aegp::{
    CameraSuite, CameraType, FilmSizeUnits, LayerSuite, MaterialBasic, Matrix4, Scene3D,
    Scene3DMaterialHandle, Scene3DMaterialSuite, Scene3DMeshHandle, Scene3DMeshSuite,
    Scene3DNodeHandle, Scene3DNodeSuite, Scene3DSetup, Scene3DTextureCacheHandle,
    StreamReferenceHandle, StreamSuite, StreamValue, WorldHandle, WorldSuite,
};
use plugin_suites::buffers::{check_kind, check_measurable, collect_doubles, collect_ints};
use plugin_suites::call::{HostCall, HostReply};
use plugin_suites::entry::{CompEntry, Entry, SceneEntry, SuiteId, SuiteName};
use plugin_suites::error::Error;
use plugin_suites::handle::{CompHandle, InDataHandle, LayerHandle, RenderContextHandle};
use plugin_suites::pf::{EffectWorld, Time};
use plugin_suites::registry::{Acquire, Registry, SuiteGuard};
use plugin_suites::sequence::Sequence;
use plugin_suites::value::{Kind, Value};

const REGISTRY: usize = 0x5000;
const TABLE: usize = 0x9000;
const SCENE: usize = 0x0500;
const CONTEXT: usize = 0x0600;

fn registry() -> Registry {
    Registry::from_raw(REGISTRY)
}

fn guard(acquire: Result<Acquire, Error>) -> SuiteGuard {
    acquire.unwrap().complete(&HostReply::new(0, vec![Value::Handle(TABLE)])).unwrap()
}

fn scene_id() -> SuiteId {
    SuiteId { name: SuiteName::Scene3D, version: 2 }
}

fn comp(entry: CompEntry, args: Vec<Value>, outputs: Vec<Value>) -> HostCall {
    HostCall::Invoke { table: TABLE, entry: Entry::Comp(entry), args, outputs }
}

fn scene(entry: SceneEntry, args: Vec<Value>, outputs: Vec<Value>) -> HostCall {
    HostCall::Invoke { table: TABLE, entry: Entry::Scene(entry), args, outputs }
}

fn setup() -> Scene3DSetup {
    Scene3D::new(
        &registry(),
        InDataHandle::from_raw(0x0011),
        RenderContextHandle::from_raw(0x0022),
        Scene3DTextureCacheHandle::from_raw(0x0033),
    )
}

fn drive(machine: Scene3DSetup, replies: Vec<HostReply>) -> (Vec<HostCall>, Scene3DSetup) {
    let mut machine = machine;
    let mut log = Vec::new();
    for reply in &replies {
        match machine.call() {
            Some(call) => {
                log.push(call);
                assert!(machine.accepts(reply));
                machine = machine.advance(reply);
            }
            None => break,
        }
    }
    (log, machine)
}

fn built_scene() -> Scene3D {
    let (_, machine) = drive(
        setup(),
        vec![
            HostReply::new(0, vec![Value::Handle(TABLE)]),
            HostReply::new(0, vec![Value::Handle(SCENE)]),
            HostReply::new(0, vec![Value::Handle(CONTEXT)]),
        ],
    );
    machine.finish().unwrap().unwrap()
}

fn run(sequence: Sequence, statuses: &[i32]) -> (Vec<HostCall>, Result<(), Error>) {
    let mut sequence = sequence;
    let mut log = Vec::new();
    let mut answered = 0;
    loop {
        match sequence.call() {
            Some(call) => {
                log.push(call);
                let status = statuses.get(answered).copied().unwrap_or(0);
                answered += 1;
                sequence = sequence.advance(&HostReply::status_only(status));
            }
            None => return (log, sequence.finish().unwrap()),
        }
    }
}

fn context_alloc() -> HostCall {
    scene(
        SceneEntry::TextureContextAlloc,
        vec![Value::Handle(0x0011), Value::Handle(0x0022), Value::Handle(0x0033), Value::Byte(0)],
        vec![Value::Handle(0)],
    )
}

#[test]
fn scene_setup_acquires_and_allocates_in_order() {
    let (log, machine) = drive(
        setup(),
        vec![
            HostReply::new(0, vec![Value::Handle(TABLE)]),
            HostReply::new(0, vec![Value::Handle(SCENE)]),
            HostReply::new(0, vec![Value::Handle(CONTEXT)]),
        ],
    );
    assert_eq!(
        log,
        vec![
            HostCall::Acquire { registry: REGISTRY, suite: scene_id() },
            scene(SceneEntry::SceneAlloc, vec![], vec![Value::Handle(0)]),
            context_alloc(),
        ]
    );
    assert_eq!(machine.call(), None);
    let built = machine.finish().unwrap().unwrap();
    assert_eq!(built.get_scene3d_ptr(), SCENE);
    assert_eq!(built.get_scene3d_suite_ptr(), TABLE);
}

#[test]
fn scene_setup_with_a_null_registry_calls_nothing() {
    let machine = Scene3D::new(
        &Registry::from_raw(0),
        InDataHandle::from_raw(1),
        RenderContextHandle::from_raw(2),
        Scene3DTextureCacheHandle::from_raw(3),
    );
    assert_eq!(machine.call(), None);
    assert!(!machine.accepts(&HostReply::status_only(0)));
    assert_eq!(machine.finish().unwrap().err(), Some(Error::Unavailable));
}

#[test]
fn scene_setup_without_the_table_is_unavailable() {
    let (log, machine) = drive(setup(), vec![HostReply::new(9, vec![Value::Handle(0)])]);
    assert_eq!(log, vec![HostCall::Acquire { registry: REGISTRY, suite: scene_id() }]);
    assert_eq!(machine.call(), None);
    assert_eq!(machine.finish().unwrap().err(), Some(Error::Unavailable));
}

#[test]
fn scene_setup_releases_the_table_when_the_scene_cannot_be_allocated() {
    let (log, machine) = drive(
        setup(),
        vec![
            HostReply::new(0, vec![Value::Handle(TABLE)]),
            HostReply::new(13, vec![Value::Handle(0)]),
            HostReply::status_only(0),
            HostReply::status_only(0),
        ],
    );
    assert_eq!(
        log,
        vec![
            HostCall::Acquire { registry: REGISTRY, suite: scene_id() },
            scene(SceneEntry::SceneAlloc, vec![], vec![Value::Handle(0)]),
            HostCall::Release { registry: REGISTRY, suite: scene_id() },
        ]
    );
    assert_eq!(machine.finish().unwrap().err(), Some(Error::Host(13)));
}

#[test]
fn scene_setup_unwinds_when_the_context_cannot_be_allocated() {
    let (log, machine) = drive(
        setup(),
        vec![
            HostReply::new(0, vec![Value::Handle(TABLE)]),
            HostReply::new(0, vec![Value::Handle(SCENE)]),
            HostReply::new(14, vec![Value::Handle(0)]),
            HostReply::status_only(99),
            HostReply::status_only(0),
            HostReply::status_only(0),
        ],
    );
    assert_eq!(
        log,
        vec![
            HostCall::Acquire { registry: REGISTRY, suite: scene_id() },
            scene(SceneEntry::SceneAlloc, vec![], vec![Value::Handle(0)]),
            context_alloc(),
            scene(SceneEntry::SceneDispose, vec![Value::Handle(SCENE)], vec![]),
            HostCall::Release { registry: REGISTRY, suite: scene_id() },
        ]
    );
    assert_eq!(machine.finish().unwrap().err(), Some(Error::Host(14)));
}

#[test]
fn scene_setup_in_progress_has_no_result() {
    let (_, machine) = drive(setup(), vec![HostReply::new(0, vec![Value::Handle(TABLE)])]);
    assert!(!machine.accepts(&HostReply::new(0, vec![Value::Int(5)])));
    assert!(!machine.accepts(&HostReply::new(0, vec![])));
    assert!(machine.accepts(&HostReply::new(1, vec![])));
    assert!(machine.finish().is_none());
}

#[test]
fn scene_teardown_disposes_context_then_scene_then_releases() {
    let built = built_scene();
    let (log, outcome) = run(built.release(), &[41, 42, 43]);
    assert_eq!(
        log,
        vec![
            scene(SceneEntry::TextureContextDispose, vec![Value::Handle(CONTEXT)], vec![]),
            scene(SceneEntry::SceneDispose, vec![Value::Handle(SCENE)], vec![]),
            HostCall::Release { registry: REGISTRY, suite: scene_id() },
        ]
    );
    assert_eq!(outcome, Err(Error::Host(41)));
}

#[test]
fn scene_calls_pass_what_the_scene_owns() {
    let built = built_scene();
    assert_eq!(
        built.setup_motion_blur_samples(16, 2).call(),
        scene(
            SceneEntry::SetupMotionBlurSamples,
            vec![
                Value::Handle(0x0011),
                Value::Handle(0x0022),
                Value::Handle(SCENE),
                Value::Int(16),
                Value::Word(2),
            ],
            vec![]
        )
    );
    assert_eq!(
        built.build(0x0777).call(),
        scene(
            SceneEntry::Build,
            vec![
                Value::Handle(0x0011),
                Value::Handle(0x0022),
                Value::Handle(CONTEXT),
                Value::Handle(0x0777),
                Value::Handle(SCENE),
            ],
            vec![]
        )
    );
    let lights = built.scene_num_lights();
    assert_eq!(
        lights.call(),
        scene(SceneEntry::SceneNumLights, vec![Value::Handle(SCENE)], vec![Value::Int(0)])
    );
    assert_eq!(lights.complete(&HostReply::new(0, vec![Value::Int(4)])), Ok(4));
    assert_eq!(
        built.node_traverser(0x0888, 0x0999, 1).call(),
        scene(
            SceneEntry::NodeTraverser,
            vec![Value::Handle(SCENE), Value::Handle(0x0888), Value::Handle(0x0999), Value::Word(1)],
            vec![]
        )
    );
}

#[test]
fn texture_cache_allocation_gives_the_scene_up() {
    let (alloc, teardown) = Scene3DTextureCacheHandle::new(built_scene());
    assert_eq!(alloc.call(), scene(SceneEntry::TextureCacheAlloc, vec![], vec![Value::Handle(0)]));
    assert_eq!(
        alloc.complete(&HostReply::new(0, vec![Value::Handle(0x0ABC)])),
        Ok(Scene3DTextureCacheHandle::from_raw(0x0ABC))
    );
    let (log, outcome) = run(teardown, &[]);
    assert_eq!(outcome, Ok(()));
    assert_eq!(log.len(), 3);
    assert_eq!(log[2], HostCall::Release { registry: REGISTRY, suite: scene_id() });
}

#[test]
fn world_is_described_in_zeroed_bytes() {
    let suite = WorldSuite::from_guard(guard(WorldSuite::new(&registry()))).unwrap();
    let filling = suite.fill_out_pf_effect_world(&WorldHandle::from_raw(0x0123), 3);
    assert_eq!(
        filling.call(),
        comp(CompEntry::FillOutEffectWorld, vec![Value::Handle(0x0123)], vec![Value::Byte(0); 3])
    );
    let reply = HostReply::new(0, vec![Value::Byte(1), Value::Byte(0), Value::Byte(3)]);
    assert!(filling.accepts(&reply));
    assert_eq!(filling.complete(&reply), Ok(EffectWorld { effect_world: vec![1, 0, 3] }));
    let filling = suite.fill_out_pf_effect_world(&WorldHandle::from_raw(0x0123), 3);
    assert_eq!(filling.complete(&HostReply::status_only(3)), Err(Error::Host(3)));
}

#[test]
fn layer_transform_is_sixteen_zeroed_cells() {
    let suite = LayerSuite::from_guard(guard(LayerSuite::new(&registry()))).unwrap();
    let time = Time { value: 48, scale: 24 };
    let pending = suite.get_layer_to_worl_xform(&LayerHandle::from_raw(0x0100), &time);
    assert_eq!(
        pending.call(),
        comp(
            CompEntry::GetLayerToWorldXform,
            vec![Value::Handle(0x0100), Value::Int(48), Value::Word(24)],
            vec![Value::Double(0); 16]
        )
    );
    let cells: Vec<Value> = (0..16).map(|i| Value::Double((i as f64).to_bits())).collect();
    let matrix: Matrix4 = pending.complete(&HostReply::new(0, cells)).unwrap();
    assert_eq!(f64::from_bits(matrix.m00), 0.0);
    assert_eq!(f64::from_bits(matrix.m01), 1.0);
    assert_eq!(f64::from_bits(matrix.m10), 4.0);
    assert_eq!(f64::from_bits(matrix.m33), 15.0);
}

#[test]
fn streams_are_found_and_sampled() {
    let suite = StreamSuite::from_guard(guard(StreamSuite::new(&registry()))).unwrap();
    let pending = suite.get_new_layer_stream(7, &LayerHandle::from_raw(0x0100), 12);
    assert_eq!(
        pending.call(),
        comp(
            CompEntry::GetNewLayerStream,
            vec![Value::Int(7), Value::Handle(0x0100), Value::Int(12)],
            vec![Value::Handle(0)]
        )
    );
    let stream = pending.complete(&HostReply::new(0, vec![Value::Handle(0x0456)])).unwrap();
    assert_eq!(stream, StreamReferenceHandle::from_raw(0x0456));
    let time = Time { value: -5, scale: 30 };
    let filling = suite.get_new_stream_value(u32::MAX, &stream, 1, &time, true, 2);
    assert_eq!(
        filling.call(),
        comp(
            CompEntry::GetNewStreamValue,
            vec![
                Value::Int(-1),
                Value::Handle(0x0456),
                Value::Short(1),
                Value::Int(-5),
                Value::Word(30),
                Value::Byte(1),
            ],
            vec![Value::Byte(0), Value::Byte(0)]
        )
    );
    // A host that reports success after writing one byte leaves the other zero.
    let reply = HostReply::new(0, vec![Value::Byte(0xAB), Value::Byte(0)]);
    assert!(filling.accepts(&reply));
    assert_eq!(filling.complete(&reply), Ok(StreamValue { stream_value: vec![0xAB, 0] }));
}

#[test]
fn camera_answers_are_decoded() {
    let suite = CameraSuite::from_guard(guard(CameraSuite::new(&registry()))).unwrap();
    let time = Time { value: 1, scale: 25 };
    let pending = suite.get_camera(&RenderContextHandle::from_raw(0x0022), &time);
    assert_eq!(
        pending.call(),
        comp(
            CompEntry::GetCamera,
            vec![Value::Handle(0x0022), Value::Int(1), Value::Word(25)],
            vec![Value::Handle(0)]
        )
    );
    assert_eq!(
        pending.complete(&HostReply::new(0, vec![Value::Handle(0x0100)])),
        Ok(LayerHandle::from_raw(0x0100))
    );
    let camera = LayerHandle::from_raw(0x0100);
    let pending = suite.get_camera_film_size(&camera);
    assert_eq!(
        pending.call(),
        comp(
            CompEntry::GetCameraFilmSize,
            vec![Value::Handle(0x0100)],
            vec![Value::Int(0), Value::Double(0)]
        )
    );
    assert!(!pending.accepts(&HostReply::new(0, vec![Value::Int(4), Value::Double(0)])));
    assert_eq!(
        pending.complete(&HostReply::new(0, vec![Value::Int(1), Value::Double(36.0f64.to_bits())])),
        Ok((FilmSizeUnits::Horizontal, 36.0f64.to_bits()))
    );
    let pending = suite.get_default_camera_distance_to_image_plane(&CompHandle::from_raw(0x0200));
    assert_eq!(
        pending.complete(&HostReply::new(0, vec![Value::Double(1234.5f64.to_bits())])),
        Ok(1234.5f64.to_bits())
    );
    let pending = suite.get_camera_type(&camera);
    assert_eq!(
        pending.call(),
        comp(CompEntry::GetCameraType, vec![Value::Handle(0x0100)], vec![Value::Word(0)])
    );
    assert!(!pending.accepts(&HostReply::new(0, vec![Value::Word(7)])));
    assert_eq!(pending.complete(&HostReply::new(0, vec![Value::Word(1)])), Ok(CameraType::Orthographic));
    let pending = suite.get_camera_type(&camera);
    assert_eq!(
        pending.complete(&HostReply::new(0, vec![Value::Word(u32::MAX)])),
        Ok(CameraType::NoCamera)
    );
    let pending = suite.get_camera_type(&camera);
    assert_eq!(pending.complete(&HostReply::new(6, vec![Value::Word(1)])), Err(Error::Host(6)));
}

#[test]
fn materials_and_nodes_hand_out_borrowed_handles() {
    let materials = Scene3DMaterialSuite::from_guard(guard(Scene3DMaterialSuite::new(&registry()))).unwrap();
    let material = Scene3DMaterialHandle::from_raw(0x0300);
    assert_eq!(
        materials.has_uv_color_texture(&material).complete(&HostReply::new(0, vec![Value::Byte(1)])),
        Ok(true)
    );
    assert_eq!(
        materials.get_uv_color_texture(&material).complete(&HostReply::new(0, vec![Value::Handle(0x0123)])),
        Ok(WorldHandle::from_raw(0x0123))
    );
    let filling = materials.get_basic_coeffs(&material, 2);
    assert_eq!(
        filling.call(),
        scene(SceneEntry::GetBasicCoeffs, vec![Value::Handle(0x0300)], vec![Value::Byte(0); 2])
    );
    assert_eq!(
        filling.complete(&HostReply::new(0, vec![Value::Byte(5), Value::Byte(6)])),
        Ok(MaterialBasic { bytes: vec![5, 6] })
    );

    let nodes = Scene3DNodeSuite::from_guard(guard(Scene3DNodeSuite::new(&registry()))).unwrap();
    let node = Scene3DNodeHandle::new(0x0400);
    assert_eq!(node.as_ptr(), 0x0400);
    let pending = nodes.get_material_for_side(&node, 1);
    assert_eq!(
        pending.call(),
        scene(
            SceneEntry::GetMaterialForSide,
            vec![Value::Handle(0x0400), Value::Word(1)],
            vec![Value::Handle(0)]
        )
    );
    assert_eq!(pending.complete(&HostReply::new(0, vec![Value::Handle(0x0300)])), Ok(material));
    assert_eq!(
        nodes.node_mesh_get(&node).complete(&HostReply::new(0, vec![Value::Handle(0x0700)])),
        Ok(Scene3DMeshHandle::from_raw(0x0700))
    );
}

fn meshes() -> Scene3DMeshSuite {
    Scene3DMeshSuite::from_guard(guard(Scene3DMeshSuite::new(&registry()))).unwrap()
}

#[test]
fn mesh_counts_and_sizes_are_read() {
    let suite = meshes();
    let mesh = Scene3DMeshHandle::from_raw(0x0700);
    assert_eq!(
        suite.face_group_buffer_count(&mesh).complete(&HostReply::new(0, vec![Value::Int(3)])),
        Ok(3)
    );
    let pending = suite.face_group_buffer_size(&mesh, 2);
    assert_eq!(
        pending.call(),
        scene(
            SceneEntry::FaceGroupBufferSize,
            vec![Value::Handle(0x0700), Value::Int(2)],
            vec![Value::Int(0)]
        )
    );
    assert_eq!(pending.complete(&HostReply::new(0, vec![Value::Int(12)])), Ok(12));
    assert_eq!(
        suite
            .get_material_side_for_face_group(&mesh, 1)
            .complete(&HostReply::new(0, vec![Value::Word(2)])),
        Ok(2)
    );
    assert_eq!(
        suite.mesh_get_info(&mesh).complete(&HostReply::new(0, vec![Value::Int(8), Value::Int(6)])),
        Ok((8, 6))
    );
    let query = suite.vertex_buffer_element_size(1);
    assert_eq!(query.call(), scene(SceneEntry::VertexBufferElementSize, vec![Value::Word(1)], vec![]));
    assert_eq!(query.complete(&HostReply::status_only(8)), 8);
    assert_eq!(suite.face_index_element_size(0).complete(&HostReply::status_only(4)), 4);
    assert_eq!(suite.uv_buffer_element_size(2).complete(&HostReply::status_only(16)), 16);
}

#[test]
fn face_group_is_sized_then_filled() {
    let suite = meshes();
    let mesh = Scene3DMeshHandle::from_raw(0x0700);
    let machine = suite.face_group_buffer_fill(&mesh, 2);
    assert_eq!(
        machine.call(),
        Some(scene(
            SceneEntry::FaceGroupBufferSize,
            vec![Value::Handle(0x0700), Value::Int(2)],
            vec![Value::Int(0)]
        ))
    );
    let sized = HostReply::new(0, vec![Value::Int(3)]);
    assert!(machine.accepts(&sized));
    let machine = machine.advance(&sized);
    assert_eq!(
        machine.call(),
        Some(scene(
            SceneEntry::FaceGroupBufferFill,
            vec![Value::Handle(0x0700), Value::Int(2), Value::Int(3)],
            vec![Value::Int(0), Value::Int(0), Value::Int(0)]
        ))
    );
    assert!(!machine.accepts(&HostReply::new(0, vec![Value::Int(1), Value::Int(2)])));
    assert!(!machine.accepts(&HostReply::new(0, vec![Value::Int(1), Value::Word(2), Value::Int(3)])));
    let filled = HostReply::new(0, vec![Value::Int(10), Value::Int(11), Value::Int(12)]);
    assert!(machine.accepts(&filled));
    let machine = machine.advance(&filled);
    assert_eq!(machine.call(), None);
    assert_eq!(machine.finish(), Some(Ok(vec![10, 11, 12])));
}

#[test]
fn face_group_fill_ends_with_the_first_failure() {
    let suite = meshes();
    let mesh = Scene3DMeshHandle::from_raw(0x0700);
    let machine = suite.face_group_buffer_fill(&mesh, 0);
    let machine = machine.advance(&HostReply::new(4, vec![Value::Int(3)]));
    assert_eq!(machine.call(), None);
    assert_eq!(machine.finish(), Some(Err(Error::Host(4))));

    let machine = suite.face_group_buffer_fill(&mesh, 0);
    assert!(machine.finish().is_none());
    let machine = suite.face_group_buffer_fill(&mesh, 0);
    let machine = machine.advance(&HostReply::new(0, vec![Value::Int(0)]));
    assert_eq!(
        machine.call(),
        Some(scene(
            SceneEntry::FaceGroupBufferFill,
            vec![Value::Handle(0x0700), Value::Int(0), Value::Int(0)],
            vec![]
        ))
    );
    let machine = machine.advance(&HostReply::new(5, vec![]));
    assert_eq!(machine.finish(), Some(Err(Error::Host(5))));
}

#[test]
fn negative_face_count_is_not_accepted() {
    let suite = meshes();
    let mesh = Scene3DMeshHandle::from_raw(0x0700);
    let machine = suite.face_group_buffer_fill(&mesh, 0);
    assert!(!machine.accepts(&HostReply::new(0, vec![Value::Int(-1)])));
    assert!(!machine.accepts(&HostReply::new(0, vec![Value::Word(1)])));
    assert!(machine.accepts(&HostReply::new(0, vec![Value::Int(0)])));
}

#[test]
fn mesh_buffers_are_measured_then_filled() {
    let suite = meshes();
    let mesh = Scene3DMeshHandle::from_raw(0x0700);
    let machine = suite.mesh_fill_buffers(&mesh, 1, 2, 3);
    assert_eq!(
        machine.call(),
        Some(scene(
            SceneEntry::MeshGetInfo,
            vec![Value::Handle(0x0700)],
            vec![Value::Int(0), Value::Int(0)]
        ))
    );
    assert!(!machine.accepts(&HostReply::new(0, vec![Value::Int(-2), Value::Int(1)])));
    assert!(!machine.accepts(&HostReply::new(0, vec![Value::Int(2)])));
    let measured = HostReply::new(0, vec![Value::Int(2), Value::Int(1)]);
    assert!(machine.accepts(&measured));
    let machine = machine.advance(&measured);
    let mut offered = vec![Value::Double(0); 6];
    offered.extend(vec![Value::Int(0); 4]);
    offered.extend(vec![Value::Double(0); 8]);
    assert_eq!(
        machine.call(),
        Some(scene(
            SceneEntry::MeshFillBuffers,
            vec![Value::Handle(0x0700), Value::Word(1), Value::Word(2), Value::Word(3)],
            offered
        ))
    );
    let mut slots: Vec<Value> = (0..6).map(|i| Value::Double((i as f64).to_bits())).collect();
    slots.extend((0..4).map(|i| Value::Int(100 + i)));
    slots.extend((0..8).map(|i| Value::Double((0.5 * i as f64).to_bits())));
    let mut wrong = slots.clone();
    wrong[6] = Value::Double(0);
    assert!(!machine.accepts(&HostReply::new(0, wrong)));
    assert!(!machine.accepts(&HostReply::new(0, slots[..17].to_vec())));
    let filled = HostReply::new(0, slots);
    assert!(machine.accepts(&filled));
    let machine = machine.advance(&filled);
    assert_eq!(machine.call(), None);
    let (vertices, faces, uvs) = machine.finish().unwrap().unwrap();
    assert_eq!(vertices, (0..6).map(|i| (i as f64).to_bits()).collect::<Vec<u64>>());
    assert_eq!(faces, vec![100, 101, 102, 103]);
    assert_eq!(uvs, (0..8).map(|i| (0.5 * i as f64).to_bits()).collect::<Vec<u64>>());
}

#[test]
fn mesh_fill_ends_with_the_first_failure() {
    let suite = meshes();
    let mesh = Scene3DMeshHandle::from_raw(0x0700);
    let machine = suite.mesh_fill_buffers(&mesh, 1, 2, 3);
    let machine = machine.advance(&HostReply::new(7, vec![]));
    assert_eq!(machine.call(), None);
    assert_eq!(machine.finish(), Some(Err(Error::Host(7))));
    let machine = suite.mesh_fill_buffers(&mesh, 1, 2, 3);
    let machine = machine.advance(&HostReply::new(0, vec![Value::Int(0), Value::Int(0)]));
    let machine = machine.advance(&HostReply::new(8, vec![]));
    assert_eq!(machine.finish(), Some(Err(Error::Host(8))));
    let machine = suite.mesh_fill_buffers(&mesh, 1, 2, 3);
    let machine = machine.advance(&HostReply::new(0, vec![Value::Int(0), Value::Int(0)]));
    let machine = machine.advance(&HostReply::new(0, vec![]));
    assert_eq!(machine.finish(), Some(Ok((vec![], vec![], vec![]))));
}

#[test]
fn buffer_helpers_read_ranges() {
    let slots = vec![Value::Double(1), Value::Double(2), Value::Int(3), Value::Int(-4), Value::Double(5)];
    assert!(check_kind(&slots, 0, 2, Kind::Double));
    assert!(!check_kind(&slots, 0, 3, Kind::Double));
    assert!(check_kind(&slots, 2, 4, Kind::Int));
    assert!(check_kind(&slots, 3, 3, Kind::Byte));
    assert_eq!(collect_doubles(&slots, 0, 2), vec![1, 2]);
    assert_eq!(collect_ints(&slots, 2, 4), vec![3, -4]);
    assert_eq!(collect_doubles(&slots, 4, 5), vec![5]);
    assert!(check_measurable(0, 0));
    assert!(check_measurable(1000, 2000));
    assert!(!check_measurable(-1, 0));
    assert!(!check_measurable(0, -1));
    assert_eq!(check_measurable(i32::MAX, i32::MAX), usize::MAX as u64 >= 15 * (i32::MAX as u64));
}
