use plugin_suites::call::{HostCall, HostReply};
use plugin_suites::decode::{count_of, index_of, signed_of, Decode};
use plugin_suites::entry::{Entry, MaskEntry, MaskOutlineEntry, SceneEntry};
use plugin_suites::error::{check_status, Error};
use plugin_suites::handle::LayerHandle;
use plugin_suites::mask::{
    MaskFeather, MaskMode, MaskOutlineHandle, MaskOutlineSuite, MaskRefHandle, MaskSuite,
    MaskVertex,
};
use plugin_suites::pending::{Filling, Pending, Query};
use plugin_suites::pf::{EffectWorld, PixelF64};
use plugin_suites::registry::Registry;
use plugin_suites::value::{copy_values, push_zeros, Kind, Value};

const TABLE: usize = 0x6000;

fn mask_suite() -> MaskSuite {
    let acquire = MaskSuite::new(&Registry::from_raw(0x5000)).unwrap();
    let guard = acquire.complete(&HostReply::new(0, vec![Value::Handle(TABLE)])).unwrap();
    MaskSuite::from_guard(guard).unwrap()
}

fn outline_suite() -> MaskOutlineSuite {
    let acquire = MaskOutlineSuite::new(&Registry::from_raw(0x5000)).unwrap();
    let guard = acquire.complete(&HostReply::new(0, vec![Value::Handle(TABLE)])).unwrap();
    MaskOutlineSuite::from_guard(guard).unwrap()
}

#[test]
fn status_zero_is_success_and_any_other_carries_its_code() {
    assert_eq!(check_status(0), Ok(()));
    assert_eq!(check_status(7), Err(Error::Host(7)));
    assert_eq!(check_status(-3), Err(Error::Host(-3)));
    assert_eq!(Error::from_status(9), Error::Host(9));
    assert_eq!(Error::Host(9).code(), Some(9));
    assert_eq!(Error::Unavailable.code(), None);
    assert_eq!(Error::Unavailable.message(), "capability unavailable");
    assert_eq!(Error::Host(1).message(), "host call failed");
}

#[test]
fn action_call_has_no_output_slot() {
    let suite = mask_suite();
    let mask = MaskRefHandle::from_raw(0x0A00);
    let pending = suite.set_mask_invert(&mask, true);
    assert_eq!(
        pending.call(),
        HostCall::Invoke {
            table: TABLE,
            entry: Entry::Mask(MaskEntry::SetMaskInvert),
            args: vec![Value::Handle(0x0A00), Value::Byte(1)],
            outputs: vec![],
        }
    );
    assert_eq!(pending.complete(&HostReply::status_only(0)), Ok(()));
    let pending = suite.set_mask_invert(&mask, false);
    assert_eq!(pending.complete(&HostReply::status_only(12)), Err(Error::Host(12)));
}

#[test]
fn single_output_slot_is_zeroed_before_the_call() {
    let suite = mask_suite();
    let layer = LayerHandle::from_raw(0x0100);
    let pending = suite.layer_num_masks(&layer);
    match pending.call() {
        HostCall::Invoke { outputs, args, entry, table } => {
            assert_eq!(outputs, vec![Value::Int(0)]);
            assert_eq!(args, vec![Value::Handle(0x0100)]);
            assert_eq!(entry, Entry::Mask(MaskEntry::GetLayerNumMasks));
            assert_eq!(table, TABLE);
        }
        other => panic!("unexpected call {:?}", other),
    }
}

#[test]
fn failed_call_never_surfaces_the_slot() {
    let suite = mask_suite();
    let layer = LayerHandle::from_raw(0x0100);
    let pending = suite.layer_num_masks(&layer);
    // The host wrote half of an answer and then reported an error.
    let reply = HostReply::new(5, vec![Value::Int(42)]);
    assert!(pending.accepts(&reply));
    assert_eq!(pending.complete(&reply), Err(Error::Host(5)));
    // Whatever the slots hold, even nothing at all.
    let pending = suite.layer_num_masks(&layer);
    let reply = HostReply::new(5, vec![]);
    assert!(pending.accepts(&reply));
    assert_eq!(pending.complete(&reply), Err(Error::Host(5)));
}

#[test]
fn successful_call_returns_what_the_host_left_in_the_slot() {
    let suite = mask_suite();
    let layer = LayerHandle::from_raw(0x0100);
    let pending = suite.layer_num_masks(&layer);
    // A host that reports success without touching the slot yields zero.
    let untouched = match pending.call() {
        HostCall::Invoke { outputs, .. } => outputs,
        other => panic!("unexpected call {:?}", other),
    };
    assert_eq!(pending.complete(&HostReply::new(0, untouched)), Ok(0));
    let pending = suite.mask_id(&MaskRefHandle::from_raw(1));
    assert_eq!(pending.complete(&HostReply::new(0, vec![Value::Int(-77)])), Ok(-77));
}

#[test]
fn double_output_call_returns_a_pair() {
    let suite = mask_suite();
    let layer = LayerHandle::from_raw(0x0100);
    let pending = suite.create_new_mask(&layer);
    match pending.call() {
        HostCall::Invoke { outputs, .. } => {
            assert_eq!(outputs, vec![Value::Handle(0), Value::Int(0)]);
        }
        other => panic!("unexpected call {:?}", other),
    }
    let reply = HostReply::new(0, vec![Value::Handle(0x0B00), Value::Int(4)]);
    assert!(pending.accepts(&reply));
    let (mask, index) = pending.complete(&reply).unwrap();
    assert_eq!(mask, MaskRefHandle::from_raw_owned(0x0B00));
    assert_eq!(index, 4);
    let pending = suite.create_new_mask(&layer);
    let failed = HostReply::new(2, vec![Value::Handle(0x0B00), Value::Int(4)]);
    assert_eq!(pending.complete(&failed).err(), Some(Error::Host(2)));
}

#[test]
fn reply_of_the_wrong_shape_is_not_accepted() {
    let suite = mask_suite();
    let layer = LayerHandle::from_raw(0x0100);
    let pending = suite.layer_num_masks(&layer);
    assert!(!pending.accepts(&HostReply::new(0, vec![])));
    assert!(!pending.accepts(&HostReply::new(0, vec![Value::Byte(3)])));
    assert!(!pending.accepts(&HostReply::new(0, vec![Value::Int(3), Value::Int(4)])));
    assert!(pending.accepts(&HostReply::new(0, vec![Value::Int(3)])));
    let pending = suite.create_new_mask(&layer);
    assert!(!pending.accepts(&HostReply::new(0, vec![Value::Int(4), Value::Handle(1)])));
    assert!(!pending.accepts(&HostReply::new(0, vec![Value::Handle(1)])));
}

#[test]
fn unknown_code_from_the_host_is_not_accepted() {
    let suite = mask_suite();
    let mask = MaskRefHandle::from_raw(0x0A00);
    let pending = suite.mask_mode(&mask);
    assert!(!pending.accepts(&HostReply::new(0, vec![Value::Int(8)])));
    assert!(!pending.accepts(&HostReply::new(0, vec![Value::Int(-1)])));
    let reply = HostReply::new(0, vec![Value::Int(6)]);
    assert!(pending.accepts(&reply));
    assert_eq!(pending.complete(&reply), Ok(MaskMode::Difference));
    let pending = suite.mask_motion_blur_state(&mask);
    assert!(!pending.accepts(&HostReply::new(0, vec![Value::Byte(3)])));
}

#[test]
fn truth_values_are_read_as_nonzero() {
    let suite = mask_suite();
    let mask = MaskRefHandle::from_raw(0x0A00);
    assert_eq!(suite.mask_invert(&mask).complete(&HostReply::new(0, vec![Value::Byte(0)])), Ok(false));
    assert_eq!(suite.mask_invert(&mask).complete(&HostReply::new(0, vec![Value::Byte(1)])), Ok(true));
    assert_eq!(suite.mask_lock_state(&mask).complete(&HostReply::new(0, vec![Value::Byte(255)])), Ok(true));
    assert_eq!(
        suite.mask_is_roto_bezier(&mask).complete(&HostReply::new(0, vec![Value::Byte(2)])),
        Ok(true)
    );
    assert_eq!(Value::flag(true), Value::Byte(1));
    assert_eq!(Value::flag(false), Value::Byte(0));
    assert_eq!(Value::truth(true), Value::Int(1));
    assert_eq!(Value::truth(false), Value::Int(0));
}

#[test]
fn owned_handles_come_from_the_calls_that_create_masks() {
    let suite = mask_suite();
    let mask = MaskRefHandle::from_raw(0x0A00);
    let copy = suite
        .duplicate_mask(&mask)
        .complete(&HostReply::new(0, vec![Value::Handle(0x0C00)]))
        .unwrap();
    assert!(copy.is_owned());
    assert_eq!(copy.as_ptr(), 0x0C00);
    let mut owned = copy;
    let pending = suite.dispose_mask(&mut owned);
    // The handle keeps its raw value and is disposed of: giving it up later
    // calls nothing.
    assert_eq!(owned, MaskRefHandle::from_raw(0x0C00));
    assert!(!owned.is_owned());
    assert!(owned.dispose(&suite).is_none());
    assert_eq!(
        pending.call(),
        HostCall::Invoke {
            table: TABLE,
            entry: Entry::Mask(MaskEntry::DisposeMask),
            args: vec![Value::Handle(0x0C00)],
            outputs: vec![],
        }
    );
    assert_eq!(
        suite.delete_mask_from_layer(&mask).call(),
        HostCall::Invoke {
            table: TABLE,
            entry: Entry::Mask(MaskEntry::DeleteMaskFromLayer),
            args: vec![Value::Handle(0x0A00)],
            outputs: vec![],
        }
    );
}

#[test]
fn mask_color_travels_field_by_field() {
    let suite = mask_suite();
    let mask = MaskRefHandle::from_raw(0x0A00);
    let color = PixelF64 {
        alpha: 1.0f64.to_bits(),
        red: 0.25f64.to_bits(),
        green: 0.5f64.to_bits(),
        blue: 0.75f64.to_bits(),
    };
    assert_eq!(
        suite.set_mask_color(&mask, color).call(),
        HostCall::Invoke {
            table: TABLE,
            entry: Entry::Mask(MaskEntry::SetMaskColor),
            args: vec![
                Value::Handle(0x0A00),
                Value::Double(1.0f64.to_bits()),
                Value::Double(0.25f64.to_bits()),
                Value::Double(0.5f64.to_bits()),
                Value::Double(0.75f64.to_bits()),
            ],
            outputs: vec![],
        }
    );
    let pending = suite.mask_color(&mask);
    match pending.call() {
        HostCall::Invoke { outputs, .. } => assert_eq!(outputs, vec![Value::Double(0); 4]),
        other => panic!("unexpected call {:?}", other),
    }
    let reply = HostReply::new(
        0,
        vec![
            Value::Double(1.0f64.to_bits()),
            Value::Double(0.25f64.to_bits()),
            Value::Double(0.5f64.to_bits()),
            Value::Double(0.75f64.to_bits()),
        ],
    );
    assert_eq!(pending.complete(&reply), Ok(color));
    assert_eq!(f64::from_bits(color.green), 0.5);
}

#[test]
fn set_mask_codes_are_passed_in_the_width_of_the_host() {
    let suite = mask_suite();
    let mask = MaskRefHandle::from_raw(0x0A00);
    match suite.set_mask_mode(&mask, MaskMode::Intersect).call() {
        HostCall::Invoke { args, .. } => assert_eq!(args, vec![Value::Handle(0x0A00), Value::Int(3)]),
        other => panic!("unexpected call {:?}", other),
    }
    match suite
        .set_mask_motion_blur_state(&mask, plugin_suites::mask::MaskMBlur::On)
        .call()
    {
        HostCall::Invoke { args, .. } => assert_eq!(args, vec![Value::Handle(0x0A00), Value::Byte(2)]),
        other => panic!("unexpected call {:?}", other),
    }
    match suite
        .set_mask_feather_falloff(&mask, plugin_suites::mask::MaskFeatherFalloff::Linear)
        .call()
    {
        HostCall::Invoke { args, .. } => assert_eq!(args, vec![Value::Handle(0x0A00), Value::Byte(1)]),
        other => panic!("unexpected call {:?}", other),
    }
    match suite.set_mask_lock_state(&mask, true).call() {
        HostCall::Invoke { args, entry, .. } => {
            assert_eq!(entry, Entry::Mask(MaskEntry::SetMaskLockState));
            assert_eq!(args, vec![Value::Handle(0x0A00), Value::Byte(1)]);
        }
        other => panic!("unexpected call {:?}", other),
    }
    match suite.set_mask_is_roto_bezier(&mask, false).call() {
        HostCall::Invoke { args, entry, .. } => {
            assert_eq!(entry, Entry::Mask(MaskEntry::SetMaskIsRotoBezier));
            assert_eq!(args, vec![Value::Handle(0x0A00), Value::Byte(0)]);
        }
        other => panic!("unexpected call {:?}", other),
    }
}

#[test]
fn outline_vertex_round_trips_through_its_six_fields() {
    let suite = outline_suite();
    let outline = MaskOutlineHandle::from_raw(0x0D00);
    let vertex = MaskVertex {
        x: 1.5f64.to_bits(),
        y: 2.5f64.to_bits(),
        tan_in_x: 3.5f64.to_bits(),
        tan_in_y: 4.5f64.to_bits(),
        tan_out_x: 5.5f64.to_bits(),
        tan_out_y: 6.5f64.to_bits(),
    };
    let set = suite.set_mask_outline_vertex_info(&outline, 2, &vertex).call();
    let fields: Vec<Value> = [1.5f64, 2.5, 3.5, 4.5, 5.5, 6.5]
        .iter()
        .map(|f| Value::Double(f.to_bits()))
        .collect();
    let mut expected = vec![Value::Handle(0x0D00), Value::Int(2)];
    expected.extend(fields.iter().cloned());
    assert_eq!(
        set,
        HostCall::Invoke {
            table: TABLE,
            entry: Entry::MaskOutline(MaskOutlineEntry::SetMaskOutlineVertexInfo),
            args: expected,
            outputs: vec![],
        }
    );
    let get = suite.mask_outline_vertex_info(&outline, 2);
    assert_eq!(get.complete(&HostReply::new(0, fields)), Ok(vertex));
}

#[test]
fn outline_feather_is_optional_when_a_feather_is_created() {
    let suite = outline_suite();
    let outline = MaskOutlineHandle::from_raw(0x0D00);
    let feather = MaskFeather {
        segment: 3,
        segment_s: 0.5f64.to_bits(),
        radius: (-2.0f64).to_bits(),
        ui_corner_angle: 0.25f32.to_bits(),
        tension: 0.75f32.to_bits(),
        interp: 1,
        kind: 1,
    };
    match suite.create_mask_outline_feather(&outline, None).call() {
        HostCall::Invoke { args, outputs, .. } => {
            assert_eq!(args, vec![Value::Handle(0x0D00)]);
            assert_eq!(outputs, vec![Value::Int(0)]);
        }
        other => panic!("unexpected call {:?}", other),
    }
    let with = suite.create_mask_outline_feather(&outline, Some(feather));
    match with.call() {
        HostCall::Invoke { args, .. } => assert_eq!(
            args,
            vec![
                Value::Handle(0x0D00),
                Value::Int(3),
                Value::Double(0.5f64.to_bits()),
                Value::Double((-2.0f64).to_bits()),
                Value::Single(0.25f32.to_bits()),
                Value::Single(0.75f32.to_bits()),
                Value::Byte(1),
                Value::Byte(1),
            ]
        ),
        other => panic!("unexpected call {:?}", other),
    }
    assert_eq!(with.complete(&HostReply::new(0, vec![Value::Int(9)])), Ok(9));
    let info = suite.mask_outline_feather_info(&outline, 9);
    let reply = HostReply::new(
        0,
        vec![
            Value::Int(3),
            Value::Double(0.5f64.to_bits()),
            Value::Double((-2.0f64).to_bits()),
            Value::Single(0.25f32.to_bits()),
            Value::Single(0.75f32.to_bits()),
            Value::Byte(1),
            Value::Byte(1),
        ],
    );
    assert!(info.accepts(&reply));
    assert_eq!(info.complete(&reply), Ok(feather));
}

#[test]
fn outline_actions_name_their_entries() {
    let suite = outline_suite();
    let outline = MaskOutlineHandle::from_raw(0x0D00);
    let cases: Vec<(HostCall, MaskOutlineEntry, Vec<Value>)> = vec![
        (
            suite.set_mask_outline_open(&outline, true).call(),
            MaskOutlineEntry::SetMaskOutlineOpen,
            vec![Value::Handle(0x0D00), Value::Byte(1)],
        ),
        (
            suite.create_vertex(&outline, 4).call(),
            MaskOutlineEntry::CreateVertex,
            vec![Value::Handle(0x0D00), Value::Int(4)],
        ),
        (
            suite.delete_vertex(&outline, 5).call(),
            MaskOutlineEntry::DeleteVertex,
            vec![Value::Handle(0x0D00), Value::Int(5)],
        ),
        (
            suite.delete_mask_outline_feather(&outline, 6).call(),
            MaskOutlineEntry::DeleteMaskOutlineFeather,
            vec![Value::Handle(0x0D00), Value::Int(6)],
        ),
    ];
    for (call, entry, args) in cases {
        assert_eq!(
            call,
            HostCall::Invoke { table: TABLE, entry: Entry::MaskOutline(entry), args, outputs: vec![] }
        );
    }
    assert_eq!(
        suite.is_mask_outline_open(&outline).complete(&HostReply::new(0, vec![Value::Byte(1)])),
        Ok(true)
    );
    assert_eq!(
        suite
            .mask_outline_num_segments(&outline)
            .complete(&HostReply::new(0, vec![Value::Int(12)])),
        Ok(12)
    );
    assert_eq!(
        suite
            .mask_outline_num_feathers(&outline)
            .complete(&HostReply::new(0, vec![Value::Int(2)])),
        Ok(2)
    );
}

#[test]
fn query_returns_what_the_entry_returned() {
    let query = Query::new(TABLE, Entry::Scene(SceneEntry::VertexBufferElementSize), vec![Value::Word(2)]);
    assert_eq!(
        query.call(),
        HostCall::Invoke {
            table: TABLE,
            entry: Entry::Scene(SceneEntry::VertexBufferElementSize),
            args: vec![Value::Word(2)],
            outputs: vec![],
        }
    );
    assert_eq!(query.complete(&HostReply::status_only(24)), 24);
}

#[test]
fn filling_call_offers_zeroed_bytes_and_returns_what_the_host_left() {
    let filling: Filling<EffectWorld> =
        Filling::new(TABLE, Entry::Scene(SceneEntry::GetBasicCoeffs), vec![Value::Handle(1)], 4);
    assert_eq!(
        filling.call(),
        HostCall::Invoke {
            table: TABLE,
            entry: Entry::Scene(SceneEntry::GetBasicCoeffs),
            args: vec![Value::Handle(1)],
            outputs: vec![Value::Byte(0); 4],
        }
    );
    // The host wrote the first two bytes only; the others are still zero.
    let partly = HostReply::new(0, vec![Value::Byte(7), Value::Byte(9), Value::Byte(0), Value::Byte(0)]);
    assert!(filling.accepts(&partly));
    assert_eq!(filling.complete(&partly), Ok(EffectWorld { effect_world: vec![7, 9, 0, 0] }));
    let filling: Filling<EffectWorld> =
        Filling::new(TABLE, Entry::Scene(SceneEntry::GetBasicCoeffs), vec![Value::Handle(1)], 4);
    assert!(!filling.accepts(&HostReply::new(0, vec![Value::Byte(7)])));
    assert!(!filling.accepts(&HostReply::new(
        0,
        vec![Value::Byte(7), Value::Int(9), Value::Byte(0), Value::Byte(0)]
    )));
    let failed = HostReply::new(4, vec![Value::Byte(7)]);
    assert!(filling.accepts(&failed));
    assert_eq!(filling.complete(&failed), Err(Error::Host(4)));
    let empty: Filling<EffectWorld> =
        Filling::new(TABLE, Entry::Scene(SceneEntry::GetBasicCoeffs), vec![], 0);
    assert_eq!(empty.complete(&HostReply::status_only(0)), Ok(EffectWorld { effect_world: vec![] }));
}

#[test]
fn concluded_call_returns_the_value_of_a_success() {
    let suite = mask_suite();
    let layer = LayerHandle::from_raw(0x0100);
    let reply = HostReply::new(0, vec![Value::Int(3)]);
    assert!(reply.succeeded());
    assert_eq!(suite.layer_num_masks(&layer).conclude(&reply), 3);
    let owned = MaskRefHandle::from_raw_owned(0x0C00);
    let disposal = owned.dispose(&suite).unwrap();
    let reply = HostReply::status_only(0);
    assert!(reply.succeeded() && disposal.accepts(&reply));
    disposal.conclude(&reply);
    // A failed disposal is told apart before it is concluded.
    assert!(!HostReply::status_only(5).succeeded());
}

#[test]
fn generic_pending_call_offers_the_template_of_its_result() {
    let pending: Pending<(i32, bool)> = Pending::new(TABLE, Entry::Mask(MaskEntry::GetMaskId), vec![]);
    match pending.call() {
        HostCall::Invoke { outputs, .. } => assert_eq!(outputs, vec![Value::Int(0), Value::Byte(0)]),
        other => panic!("unexpected call {:?}", other),
    }
    assert_eq!(<(i32, bool)>::width(), 2);
    assert_eq!(
        pending.complete(&HostReply::new(0, vec![Value::Int(5), Value::Byte(9)])),
        Ok((5, true))
    );
}

#[test]
fn casts_follow_the_machine() {
    assert_eq!(count_of(5), 5usize);
    assert_eq!(count_of(0), 0usize);
    assert_eq!(count_of(-1), usize::MAX);
    assert_eq!(signed_of(7), 7);
    assert_eq!(signed_of(u32::MAX), -1);
    assert_eq!(index_of(3), 3);
    assert_eq!(<usize>::decode(&vec![Value::Int(-1)], 0), Some(usize::MAX));
    assert_eq!(<u32>::decode(&vec![Value::Word(9)], 0), Some(9));
    assert_eq!(<u64>::decode(&vec![Value::Int(9)], 0), None);
    assert_eq!(<i64>::decode(&vec![Value::Long(-9)], 0), Some(-9));
}

#[test]
fn values_know_their_kind_and_zero() {
    let kinds = [
        Kind::Handle,
        Kind::Short,
        Kind::Int,
        Kind::Word,
        Kind::Long,
        Kind::Byte,
        Kind::Single,
        Kind::Double,
    ];
    for kind in kinds {
        assert_eq!(Value::zero(kind).kind(), kind);
    }
    assert_eq!(Value::zero(Kind::Double), Value::Double(0));
    assert_eq!(Value::Short(-4).kind(), Kind::Short);
    let mut out = vec![Value::Int(1)];
    push_zeros(&mut out, Kind::Byte, 3);
    assert_eq!(out, vec![Value::Int(1), Value::Byte(0), Value::Byte(0), Value::Byte(0)]);
    assert_eq!(copy_values(&out), out);
}
