use plugin_suites::call::{HostCall, HostReply};
use plugin_suites::drawbot::{
    Brush, Drawbot, DrawbotSuite, Font, Image, ImageSuite, Path, PathSuite, Pen, PenSuite,
    PointF32, RectF32, RoundedRect, SupplierSuite, DEGREES_0, DEGREES_180, DEGREES_90,
    DEGREES_MINUS_90,
};
use plugin_suites::entry::{DrawEntry, Entry, SuiteId, SuiteName};
use plugin_suites::error::Error;
use plugin_suites::handle::{DrawRef, SupplierRef, SurfaceRef};
use plugin_suites::pf::{EffectCustomUIOverlayThemeSuite, FloatPoint};
use plugin_suites::registry::{Acquire, Registry, SuiteGuard};
use plugin_suites::sequence::Sequence;
use plugin_suites::value::Value;

const REGISTRY: usize = 0x5000;

fn guard(acquire: Result<Acquire, Error>, table: usize) -> SuiteGuard {
    acquire.unwrap().complete(&HostReply::new(0, vec![Value::Handle(table)])).unwrap()
}

fn registry() -> Registry {
    Registry::from_raw(REGISTRY)
}

fn supplier(table: usize) -> SupplierSuite {
    SupplierSuite::from_guard(guard(SupplierSuite::new(&registry()), table)).unwrap()
}

fn path(handle: usize) -> Path {
    let suite = PathSuite::from_guard(guard(PathSuite::new(&registry()), 0x7100)).unwrap();
    Path::from_raw(handle, suite, supplier(0x7200))
}

fn run(sequence: Sequence, statuses: &[i32]) -> (Vec<HostCall>, Result<(), Error>) {
    let mut sequence = sequence;
    let mut log = Vec::new();
    let mut answered = 0;
    loop {
        match sequence.call() {
            Some(call) => {
                log.push(call);
                let status = statuses.get(answered).copied().unwrap_or(0);
                answered += 1;
                sequence = sequence.advance(&HostReply::status_only(status));
            }
            None => return (log, sequence.finish().unwrap()),
        }
    }
}

fn invoke(table: usize, entry: DrawEntry, args: Vec<Value>) -> HostCall {
    HostCall::Invoke { table, entry: Entry::Draw(entry), args, outputs: vec![] }
}

fn release(name: SuiteName) -> HostCall {
    HostCall::Release { registry: REGISTRY, suite: SuiteId { name, version: 1 } }
}

#[test]
fn suite_of_another_table_is_not_wrapped() {
    let pen_guard = guard(PenSuite::new(&registry()), 0x7000);
    assert!(PathSuite::from_guard(pen_guard).is_none());
    let path_guard = guard(PathSuite::new(&registry()), 0x7000);
    let suite = PathSuite::from_guard(path_guard).unwrap();
    assert_eq!(suite.table_ptr(), 0x7000);
    assert_eq!(suite.release(), release(SuiteName::Path));
}

#[test]
fn drawbot_hands_out_its_supplier_and_surface() {
    let suite = DrawbotSuite::from_guard(guard(DrawbotSuite::new(&registry()), 0x7300)).unwrap();
    let drawbot = Drawbot::from_raw(&DrawRef::from_raw(0x0D0D), suite);
    assert_eq!(drawbot.as_ptr(), 0x0D0D);
    let pending = drawbot.supplier();
    assert_eq!(
        pending.call(),
        HostCall::Invoke {
            table: 0x7300,
            entry: Entry::Draw(DrawEntry::GetSupplier),
            args: vec![Value::Handle(0x0D0D)],
            outputs: vec![Value::Handle(0)],
        }
    );
    assert_eq!(
        pending.complete(&HostReply::new(0, vec![Value::Handle(0x0E0E)])),
        Ok(SupplierRef::from_raw(0x0E0E))
    );
    let pending = drawbot.surface();
    assert_eq!(
        pending.complete(&HostReply::new(0, vec![Value::Handle(0x0F0F)])),
        Ok(SurfaceRef::from_raw(0x0F0F))
    );
    assert_eq!(drawbot.surface().complete(&HostReply::new(8, vec![Value::Handle(0)])), Err(Error::Host(8)));
    assert_eq!(drawbot.release(), release(SuiteName::Drawbot));
}

#[test]
fn theme_fill_acquires_calls_and_releases() {
    let suite = DrawbotSuite::from_guard(guard(DrawbotSuite::new(&registry()), 0x7300)).unwrap();
    let drawbot = Drawbot::from_raw(&DrawRef::from_raw(0x0D0D), suite);
    let outline = path(0x0A0A);
    let mut machine = drawbot.fill_theme_path(&registry(), &outline, true);
    let theme = SuiteId { name: SuiteName::OverlayTheme, version: 1 };
    assert_eq!(EffectCustomUIOverlayThemeSuite::id(), theme);
    let mut log = Vec::new();
    let replies = vec![
        HostReply::new(0, vec![Value::Handle(0x7400)]),
        HostReply::status_only(0),
        HostReply::status_only(0),
    ];
    for reply in &replies {
        log.push(machine.call().unwrap());
        assert!(machine.accepts(reply));
        machine = machine.advance(reply);
    }
    assert_eq!(machine.call(), None);
    assert_eq!(machine.finish(), Some(Ok(())));
    assert_eq!(
        log,
        vec![
            HostCall::Acquire { registry: REGISTRY, suite: theme },
            invoke(
                0x7400,
                DrawEntry::FillPath,
                vec![Value::Handle(0x0D0D), Value::Handle(0x0A0A), Value::Byte(1)]
            ),
            HostCall::Release { registry: REGISTRY, suite: theme },
        ]
    );
}

#[test]
fn theme_fill_releases_even_when_the_fill_fails() {
    let suite = DrawbotSuite::from_guard(guard(DrawbotSuite::new(&registry()), 0x7300)).unwrap();
    let drawbot = Drawbot::from_raw(&DrawRef::from_raw(0x0D0D), suite);
    let center = FloatPoint { x: 3.0f64.to_bits(), y: 4.0f64.to_bits() };
    let mut machine = drawbot.fill_theme_vertex(&registry(), center, false);
    let theme = SuiteId { name: SuiteName::OverlayTheme, version: 1 };
    let mut log = Vec::new();
    let replies = vec![
        HostReply::new(0, vec![Value::Handle(0x7400)]),
        HostReply::status_only(21),
        HostReply::status_only(0),
    ];
    for reply in &replies {
        log.push(machine.call().unwrap());
        machine = machine.advance(reply);
    }
    assert_eq!(machine.finish(), Some(Err(Error::Host(21))));
    assert_eq!(log.len(), 3);
    assert_eq!(
        log[1],
        invoke(
            0x7400,
            DrawEntry::FillVertex,
            vec![
                Value::Handle(0x0D0D),
                Value::Double(3.0f64.to_bits()),
                Value::Double(4.0f64.to_bits()),
                Value::Byte(0)
            ]
        )
    );
    assert_eq!(log[2], HostCall::Release { registry: REGISTRY, suite: theme });
}

#[test]
fn theme_fill_stops_at_an_unavailable_table() {
    let suite = DrawbotSuite::from_guard(guard(DrawbotSuite::new(&registry()), 0x7300)).unwrap();
    let drawbot = Drawbot::from_raw(&DrawRef::from_raw(0x0D0D), suite);
    let outline = path(0x0A0A);
    let machine = drawbot.fill_theme_path(&registry(), &outline, false);
    let first = machine.call().unwrap();
    assert!(matches!(first, HostCall::Acquire { .. }));
    let machine = machine.advance(&HostReply::new(1, vec![Value::Handle(0)]));
    assert_eq!(machine.call(), None);
    assert_eq!(machine.finish(), Some(Err(Error::Unavailable)));
}

#[test]
fn theme_fill_with_a_null_registry_calls_nothing() {
    let suite = DrawbotSuite::from_guard(guard(DrawbotSuite::new(&registry()), 0x7300)).unwrap();
    let drawbot = Drawbot::from_raw(&DrawRef::from_raw(0x0D0D), suite);
    let outline = path(0x0A0A);
    let machine = drawbot.fill_theme_path(&Registry::from_raw(0), &outline, true);
    assert_eq!(machine.call(), None);
    assert!(!machine.accepts(&HostReply::status_only(0)));
    assert_eq!(machine.finish(), Some(Err(Error::Unavailable)));
}

#[test]
fn unfinished_machine_has_no_result() {
    let suite = DrawbotSuite::from_guard(guard(DrawbotSuite::new(&registry()), 0x7300)).unwrap();
    let drawbot = Drawbot::from_raw(&DrawRef::from_raw(0x0D0D), suite);
    let outline = path(0x0A0A);
    let machine = drawbot.fill_theme_path(&registry(), &outline, false);
    assert!(!machine.accepts(&HostReply::new(0, vec![])));
    assert!(!machine.accepts(&HostReply::new(0, vec![Value::Int(1)])));
    assert_eq!(machine.finish(), None);
}

#[test]
fn pen_teardown_releases_the_handle_then_both_tables() {
    let suite = PenSuite::from_guard(guard(PenSuite::new(&registry()), 0x7500)).unwrap();
    let pen = Pen::from_raw(0x0B0B, suite, supplier(0x7200));
    let (log, outcome) = run(pen.release(), &[]);
    assert_eq!(outcome, Ok(()));
    assert_eq!(
        log,
        vec![
            invoke(0x7200, DrawEntry::ReleaseObject, vec![Value::Handle(0x0B0B)]),
            release(SuiteName::Pen),
            release(SuiteName::Supplier),
        ]
    );
}

#[test]
fn failed_handle_release_still_gives_the_tables_back() {
    let suite = ImageSuite::from_guard(guard(ImageSuite::new(&registry()), 0x7600)).unwrap();
    let image = Image::from_raw(0x0C0C, suite, supplier(0x7200));
    let scale = image.set_scale_factor(2.0f32.to_bits());
    assert_eq!(
        scale.call(),
        invoke(0x7600, DrawEntry::SetScaleFactor, vec![Value::Handle(0x0C0C), Value::Single(0x4000_0000)])
    );
    let (log, outcome) = run(image.release(), &[33, 44, 55]);
    assert_eq!(outcome, Err(Error::Host(33)));
    assert_eq!(
        log,
        vec![
            invoke(0x7200, DrawEntry::ReleaseObject, vec![Value::Handle(0x0C0C)]),
            release(SuiteName::Image),
            release(SuiteName::Supplier),
        ]
    );
}

#[test]
fn teardown_is_concluded_only_after_every_call_succeeded() {
    let suite = PenSuite::from_guard(guard(PenSuite::new(&registry()), 0x7500)).unwrap();
    let pen = Pen::from_raw(0x0B0B, suite, supplier(0x7200));
    let mut sequence = pen.release();
    assert!(!sequence.succeeded());
    while sequence.call().is_some() {
        assert!(!sequence.succeeded());
        sequence = sequence.advance(&HostReply::status_only(0));
    }
    assert!(sequence.succeeded());
    sequence.conclude();

    let brush = Brush::from_raw(0x0101, supplier(0x7200));
    let mut sequence = brush.release();
    sequence = sequence.advance(&HostReply::status_only(3));
    sequence = sequence.advance(&HostReply::status_only(0));
    assert_eq!(sequence.call(), None);
    // The release of the handle failed: a destructor aborts here.
    assert!(!sequence.succeeded());
    assert_eq!(sequence.finish(), Some(Err(Error::Host(3))));
}

#[test]
fn brush_and_font_hold_the_supplier_only() {
    let brush = Brush::from_raw(0x0101, supplier(0x7200));
    let (log, outcome) = run(brush.release(), &[]);
    assert_eq!(outcome, Ok(()));
    assert_eq!(
        log,
        vec![
            invoke(0x7200, DrawEntry::ReleaseObject, vec![Value::Handle(0x0101)]),
            release(SuiteName::Supplier),
        ]
    );
    let font = Font::from_raw(0x0202, supplier(0x7201));
    let (log, _) = run(font.release(), &[]);
    assert_eq!(
        log,
        vec![
            invoke(0x7201, DrawEntry::ReleaseObject, vec![Value::Handle(0x0202)]),
            release(SuiteName::Supplier),
        ]
    );
}

#[test]
fn dash_pattern_is_counted_and_listed() {
    let suite = PenSuite::from_guard(guard(PenSuite::new(&registry()), 0x7500)).unwrap();
    let mut pen = Pen::from_raw(0x0B0B, suite, supplier(0x7200));
    let dashes = vec![1.0f32.to_bits(), 2.5f32.to_bits(), 4.0f32.to_bits()];
    let pending = pen.set_dash_pattern(dashes);
    assert_eq!(
        pending.call(),
        invoke(
            0x7500,
            DrawEntry::SetDashPattern,
            vec![
                Value::Handle(0x0B0B),
                Value::Int(3),
                Value::Single(1.0f32.to_bits()),
                Value::Single(2.5f32.to_bits()),
                Value::Single(4.0f32.to_bits()),
            ]
        )
    );
    let empty = pen.set_dash_pattern(vec![]);
    assert_eq!(
        empty.call(),
        invoke(0x7500, DrawEntry::SetDashPattern, vec![Value::Handle(0x0B0B), Value::Int(0)])
    );
}

#[test]
fn path_calls_pass_points_field_by_field() {
    let mut outline = path(0x0A0A);
    assert_eq!(outline.as_ptr(), 0x0A0A);
    let a = 1.0f32.to_bits();
    let b = 2.0f32.to_bits();
    let c = 3.0f32.to_bits();
    let d = 4.0f32.to_bits();
    assert_eq!(
        outline.move_to(a, b).call(),
        invoke(0x7100, DrawEntry::MoveTo, vec![Value::Handle(0x0A0A), Value::Single(a), Value::Single(b)])
    );
    assert_eq!(
        outline.line_to(c, d).call(),
        invoke(0x7100, DrawEntry::LineTo, vec![Value::Handle(0x0A0A), Value::Single(c), Value::Single(d)])
    );
    assert_eq!(
        outline
            .bezier_to(&PointF32 { x: a, y: b }, &PointF32 { x: c, y: d }, &PointF32 { x: b, y: a })
            .call(),
        invoke(
            0x7100,
            DrawEntry::BezierTo,
            vec![
                Value::Handle(0x0A0A),
                Value::Single(a),
                Value::Single(b),
                Value::Single(c),
                Value::Single(d),
                Value::Single(b),
                Value::Single(a),
            ]
        )
    );
    assert_eq!(
        outline.add_rect(&RectF32 { left: a, top: b, width: c, height: d }).call(),
        invoke(
            0x7100,
            DrawEntry::AddRect,
            vec![
                Value::Handle(0x0A0A),
                Value::Single(a),
                Value::Single(b),
                Value::Single(c),
                Value::Single(d),
            ]
        )
    );
    assert_eq!(
        outline.add_arc(&PointF32 { x: a, y: b }, c, DEGREES_0, DEGREES_90).call(),
        invoke(
            0x7100,
            DrawEntry::AddArc,
            vec![
                Value::Handle(0x0A0A),
                Value::Single(a),
                Value::Single(b),
                Value::Single(c),
                Value::Single(0),
                Value::Single(90.0f32.to_bits()),
            ]
        )
    );
    assert_eq!(outline.close().call(), invoke(0x7100, DrawEntry::Close, vec![Value::Handle(0x0A0A)]));
    assert_eq!(outline.close().complete(&HostReply::status_only(0)), Ok(()));
}

#[test]
fn angle_constants_are_the_bit_patterns_of_their_degrees() {
    assert_eq!(DEGREES_MINUS_90, (-90.0f32).to_bits());
    assert_eq!(DEGREES_0, 0.0f32.to_bits());
    assert_eq!(DEGREES_90, 90.0f32.to_bits());
    assert_eq!(DEGREES_180, 180.0f32.to_bits());
}

fn rounded(x: f32, y: f32, w: f32, h: f32, radius: f32) -> RoundedRect {
    let r = radius.min(w / 2.0).min(h / 2.0);
    RoundedRect {
        left: x.to_bits(),
        top: y.to_bits(),
        right: (x + w).to_bits(),
        bottom: (y + h).to_bits(),
        inner_left: (x + r).to_bits(),
        inner_top: (y + r).to_bits(),
        inner_right: (x + w - r).to_bits(),
        inner_bottom: (y + h - r).to_bits(),
        radius: r.to_bits(),
    }
}

fn single(v: f32) -> Value {
    Value::Single(v.to_bits())
}

#[test]
fn rounded_rect_is_four_edges_and_four_arcs() {
    let mut outline = path(0x0A0A);
    let (log, outcome) = run(outline.add_rounded_rect(&rounded(10.0, 20.0, 100.0, 40.0, 8.0)), &[]);
    assert_eq!(outcome, Ok(()));
    let p = Value::Handle(0x0A0A);
    let r = single(8.0);
    assert_eq!(
        log,
        vec![
            invoke(0x7100, DrawEntry::MoveTo, vec![p, single(18.0), single(20.0)]),
            invoke(0x7100, DrawEntry::LineTo, vec![p, single(102.0), single(20.0)]),
            invoke(0x7100, DrawEntry::AddArc, vec![p, single(102.0), single(28.0), r, single(-90.0), single(90.0)]),
            invoke(0x7100, DrawEntry::LineTo, vec![p, single(110.0), single(52.0)]),
            invoke(0x7100, DrawEntry::AddArc, vec![p, single(102.0), single(52.0), r, single(0.0), single(90.0)]),
            invoke(0x7100, DrawEntry::LineTo, vec![p, single(18.0), single(60.0)]),
            invoke(0x7100, DrawEntry::AddArc, vec![p, single(18.0), single(52.0), r, single(90.0), single(90.0)]),
            invoke(0x7100, DrawEntry::LineTo, vec![p, single(10.0), single(28.0)]),
            invoke(0x7100, DrawEntry::AddArc, vec![p, single(18.0), single(28.0), r, single(180.0), single(90.0)]),
            invoke(0x7100, DrawEntry::Close, vec![p]),
        ]
    );
}

#[test]
fn rounded_rect_stops_at_the_first_failing_call() {
    let mut outline = path(0x0A0A);
    let (log, outcome) = run(outline.add_rounded_rect(&rounded(0.0, 0.0, 10.0, 10.0, 50.0)), &[0, 0, 17, 0]);
    assert_eq!(outcome, Err(Error::Host(17)));
    assert_eq!(log.len(), 3);
    assert_eq!(
        log[2],
        invoke(
            0x7100,
            DrawEntry::AddArc,
            vec![Value::Handle(0x0A0A), single(5.0), single(5.0), single(5.0), single(-90.0), single(90.0)]
        )
    );
    let (log, _) = run(outline.release(), &[]);
    assert_eq!(
        log,
        vec![
            invoke(0x7200, DrawEntry::ReleaseObject, vec![Value::Handle(0x0A0A)]),
            release(SuiteName::Path),
            release(SuiteName::Supplier),
        ]
    );
}

#[test]
fn sequences_remember_the_first_failure_only() {
    let calls = vec![
        invoke(1, DrawEntry::Close, vec![]),
        invoke(2, DrawEntry::Close, vec![]),
        release(SuiteName::Path),
        invoke(3, DrawEntry::Close, vec![]),
    ];
    let all = Sequence::run_all(calls.iter().map(|c| c.duplicate()).collect());
    assert_eq!(all.finish(), None);
    let all = Sequence::run_all(calls.iter().map(|c| c.duplicate()).collect());
    let (log, outcome) = run(all, &[0, 5, 6, 7]);
    assert_eq!(log, calls);
    assert_eq!(outcome, Err(Error::Host(5)));
    // What the host answers to a release is not looked at.
    let all = Sequence::run_all(calls.iter().map(|c| c.duplicate()).collect());
    let (_, outcome) = run(all, &[0, 0, 9, 0]);
    assert_eq!(outcome, Ok(()));
    let stopping = Sequence::until_failure(calls.iter().map(|c| c.duplicate()).collect());
    let (log, outcome) = run(stopping, &[0, 5, 6, 7]);
    assert_eq!(log.len(), 2);
    assert_eq!(outcome, Err(Error::Host(5)));
    let empty = Sequence::run_all(vec![]);
    assert_eq!(empty.call(), None);
    assert!(empty.succeeded());
    assert_eq!(empty.finish(), Some(Ok(())));
}

#[test]
fn overlay_theme_suite_fills_through_its_own_table() {
    let suite = EffectCustomUIOverlayThemeSuite::from_guard(guard(
        EffectCustomUIOverlayThemeSuite::new(&registry()),
        0x7400,
    ))
    .unwrap();
    let drawbot = DrawRef::from_raw(0x0D0D);
    assert_eq!(
        suite.fill_path(&drawbot, 0x0A0A, true).call(),
        invoke(
            0x7400,
            DrawEntry::FillPath,
            vec![Value::Handle(0x0D0D), Value::Handle(0x0A0A), Value::Byte(1)]
        )
    );
    let center = FloatPoint { x: 1.0f64.to_bits(), y: 2.0f64.to_bits() };
    assert_eq!(
        suite.fill_vertex(&drawbot, center, false).call(),
        invoke(
            0x7400,
            DrawEntry::FillVertex,
            vec![
                Value::Handle(0x0D0D),
                Value::Double(1.0f64.to_bits()),
                Value::Double(2.0f64.to_bits()),
                Value::Byte(0)
            ]
        )
    );
    assert_eq!(
        suite.release(),
        HostCall::Release {
            registry: REGISTRY,
            suite: SuiteId { name: SuiteName::OverlayTheme, version: 1 }
        }
    );
}
