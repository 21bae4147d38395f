//! The drawing context of a custom user interface, and the drawing objects
//! that its supplier creates.
//!
//! A drawing object owns the handle that the supplier returned for it and
//! the guards of the tables it is used through. Giving the object up releases
//! the handle through the supplier table and then gives the tables back.

use vstd::prelude::*;
use crate::call::{CallView, HostCall};
use crate::decode::Decode;
use crate::entry::{
    drawbot_suite, image_suite, overlay_theme_suite, path_suite, pen_suite, supplier_suite,
    DrawEntry, Entry, SuiteId, SuiteName,
};
use crate::error::Error;
use crate::handle::{DrawRef, SupplierRef, SurfaceRef};
use crate::pending::Pending;
use crate::pf::{EffectCustomUIOverlayThemeSuite, FloatPoint};
use crate::registry::{Acquire, Registry, SuiteGuard};
use crate::scoped::{Scoped, ScopedView};
use crate::sequence::{call_views, Sequence, SequenceView};
use crate::value::Value;

verus! {

/// A point with 32-bit floating-point coordinates, held as bit patterns.
#[derive(Clone, Copy, Debug, PartialEq, Eq, Structural, Hash)]
pub struct PointF32 {
    pub x: u32,
    pub y: u32,
}

/// A rectangle with 32-bit floating-point coordinates, held as bit patterns.
#[derive(Clone, Copy, Debug, PartialEq, Eq, Structural, Hash)]
pub struct RectF32 {
    pub left: u32,
    pub top: u32,
    pub width: u32,
    pub height: u32,
}

/// The bit pattern of -90 degrees.
pub const DEGREES_MINUS_90: u32 = 0xC2B4_0000;

/// The bit pattern of 0 degrees.
pub const DEGREES_0: u32 = 0x0000_0000;

/// The bit pattern of 90 degrees.
pub const DEGREES_90: u32 = 0x42B4_0000;

/// The bit pattern of 180 degrees.
pub const DEGREES_180: u32 = 0x4334_0000;

/// The coordinates of a rounded rectangle, each the bit pattern of a 32-bit
/// floating-point number. For a rectangle at (x, y) of width w and height h
/// whose corners are rounded with radius r, where r is at most half of w and
/// half of h, the outer edges lie at x, y, x + w and y + h, and the centers
/// of the corner arcs lie r inside of them.
#[derive(Clone, Copy, Debug, PartialEq, Eq, Structural, Hash)]
pub struct RoundedRect {
    /// x
    pub left: u32,
    /// y
    pub top: u32,
    /// x + w
    pub right: u32,
    /// y + h
    pub bottom: u32,
    /// x + r
    pub inner_left: u32,
    /// y + r
    pub inner_top: u32,
    /// x + w - r
    pub inner_right: u32,
    /// y + h - r
    pub inner_bottom: u32,
    /// r
    pub radius: u32,
}

/// The table of the drawing context.
#[derive(Debug)]
pub struct DrawbotSuite {
    guard: SuiteGuard,
}

impl DrawbotSuite {
    #[verifier::type_invariant]
    spec fn holds_own_table(self) -> bool {
        self.guard.suite() == drawbot_suite()
    }

    /// The guard that owns the acquired table.
    pub closed spec fn guard(self) -> SuiteGuard {
        self.guard
    }

    /// The (name, version) pair of this table.
    pub fn id() -> (id: SuiteId)
        ensures
            id == drawbot_suite(),
    {
        SuiteId { name: SuiteName::Drawbot, version: 1 }
    }

    /// Starts the acquisition of this table from the host. With a null
    /// registry root it fails at once with "unavailable", and nothing is
    /// called.
    pub fn new(registry: &Registry) -> (r: Result<Acquire, Error>)
        ensures
            registry.null() ==> r == Err::<Acquire, Error>(Error::Unavailable),
            !registry.null() ==> r is Ok && r->Ok_0.registry() == registry.raw
                && r->Ok_0.suite() == drawbot_suite(),
    {
        Acquire::begin(registry, Self::id())
    }

    /// Wraps the guard of a completed acquisition. Returns `None` exactly when
    /// the guard owns some other table; the guard is then lost, so release it
    /// instead of handing it here.
    pub fn from_guard(guard: SuiteGuard) -> (s: Option<Self>)
        ensures
            s is Some <==> guard.suite() == drawbot_suite(),
            s matches Some(suite) ==> suite.guard() == guard,
    {
        let id = guard.id();
        let own = Self::id();
        if id == own {
            Some(DrawbotSuite { guard })
        } else {
            None
        }
    }

    /// Ends the lifetime of the suite. The result is the one release call
    /// that is owed for its acquisition.
    pub fn release(self) -> (c: HostCall)
        ensures
            c@ == (CallView::Release { registry: self.guard().registry(), suite: drawbot_suite() }),
            self.guard().suite() == drawbot_suite(),
    {
        proof {
            use_type_invariant(&self);
        }
        self.guard.release()
    }

    /// Starts an independent acquisition of the same table: a copy of a suite
    /// is a second suite, released on its own.
    pub fn reacquire(&self) -> (a: Acquire)
        ensures
            a.registry() == self.guard().registry(),
            a.suite() == drawbot_suite(),
    {
        proof {
            use_type_invariant(self);
        }
        self.guard.reacquire()
    }

    /// The address of the acquired table.
    pub fn table_ptr(&self) -> (table: usize)
        ensures
            table == self.guard().table(),
    {
        self.guard.table_ptr()
    }
}

/// The table that creates and releases drawing objects.
#[derive(Debug)]
pub struct SupplierSuite {
    guard: SuiteGuard,
}

impl SupplierSuite {
    #[verifier::type_invariant]
    spec fn holds_own_table(self) -> bool {
        self.guard.suite() == supplier_suite()
    }

    /// The guard that owns the acquired table.
    pub closed spec fn guard(self) -> SuiteGuard {
        self.guard
    }

    /// The (name, version) pair of this table.
    pub fn id() -> (id: SuiteId)
        ensures
            id == supplier_suite(),
    {
        SuiteId { name: SuiteName::Supplier, version: 1 }
    }

    /// Starts the acquisition of this table from the host. With a null
    /// registry root it fails at once with "unavailable", and nothing is
    /// called.
    pub fn new(registry: &Registry) -> (r: Result<Acquire, Error>)
        ensures
            registry.null() ==> r == Err::<Acquire, Error>(Error::Unavailable),
            !registry.null() ==> r is Ok && r->Ok_0.registry() == registry.raw
                && r->Ok_0.suite() == supplier_suite(),
    {
        Acquire::begin(registry, Self::id())
    }

    /// Wraps the guard of a completed acquisition. Returns `None` exactly when
    /// the guard owns some other table; the guard is then lost, so release it
    /// instead of handing it here.
    pub fn from_guard(guard: SuiteGuard) -> (s: Option<Self>)
        ensures
            s is Some <==> guard.suite() == supplier_suite(),
            s matches Some(suite) ==> suite.guard() == guard,
    {
        let id = guard.id();
        let own = Self::id();
        if id == own {
            Some(SupplierSuite { guard })
        } else {
            None
        }
    }

    /// Ends the lifetime of the suite. The result is the one release call
    /// that is owed for its acquisition.
    pub fn release(self) -> (c: HostCall)
        ensures
            c@ == (CallView::Release { registry: self.guard().registry(), suite: supplier_suite() }),
            self.guard().suite() == supplier_suite(),
    {
        proof {
            use_type_invariant(&self);
        }
        self.guard.release()
    }

    /// Starts an independent acquisition of the same table: a copy of a suite
    /// is a second suite, released on its own.
    pub fn reacquire(&self) -> (a: Acquire)
        ensures
            a.registry() == self.guard().registry(),
            a.suite() == supplier_suite(),
    {
        proof {
            use_type_invariant(self);
        }
        self.guard.reacquire()
    }

    /// Releases an object that this supplier created.
    pub fn release_object(&self, object: usize) -> (p: Pending<()>)
        ensures
            p.request() == (CallView::Invoke {
                table: self.guard().table(),
                entry: Entry::Draw(DrawEntry::ReleaseObject),
                args: seq![
                    Value::Handle(object),
                ],
                outputs: <()>::template(),
            }),
    {
        let args: Vec<Value> = vec![
            Value::Handle(object),
        ];
        proof {
            assert(args@ =~= seq![
                Value::Handle(object),
            ]);
        }
        Pending::new(self.guard.table_ptr(), Entry::Draw(DrawEntry::ReleaseObject), args)
    }

    /// The address of the acquired table.
    pub fn table_ptr(&self) -> (table: usize)
        ensures
            table == self.guard().table(),
    {
        self.guard.table_ptr()
    }
}

/// The table of pens.
#[derive(Debug)]
pub struct PenSuite {
    guard: SuiteGuard,
}

impl PenSuite {
    #[verifier::type_invariant]
    spec fn holds_own_table(self) -> bool {
        self.guard.suite() == pen_suite()
    }

    /// The guard that owns the acquired table.
    pub closed spec fn guard(self) -> SuiteGuard {
        self.guard
    }

    /// The (name, version) pair of this table.
    pub fn id() -> (id: SuiteId)
        ensures
            id == pen_suite(),
    {
        SuiteId { name: SuiteName::Pen, version: 1 }
    }

    /// Starts the acquisition of this table from the host. With a null
    /// registry root it fails at once with "unavailable", and nothing is
    /// called.
    pub fn new(registry: &Registry) -> (r: Result<Acquire, Error>)
        ensures
            registry.null() ==> r == Err::<Acquire, Error>(Error::Unavailable),
            !registry.null() ==> r is Ok && r->Ok_0.registry() == registry.raw
                && r->Ok_0.suite() == pen_suite(),
    {
        Acquire::begin(registry, Self::id())
    }

    /// Wraps the guard of a completed acquisition. Returns `None` exactly when
    /// the guard owns some other table; the guard is then lost, so release it
    /// instead of handing it here.
    pub fn from_guard(guard: SuiteGuard) -> (s: Option<Self>)
        ensures
            s is Some <==> guard.suite() == pen_suite(),
            s matches Some(suite) ==> suite.guard() == guard,
    {
        let id = guard.id();
        let own = Self::id();
        if id == own {
            Some(PenSuite { guard })
        } else {
            None
        }
    }

    /// Ends the lifetime of the suite. The result is the one release call
    /// that is owed for its acquisition.
    pub fn release(self) -> (c: HostCall)
        ensures
            c@ == (CallView::Release { registry: self.guard().registry(), suite: pen_suite() }),
            self.guard().suite() == pen_suite(),
    {
        proof {
            use_type_invariant(&self);
        }
        self.guard.release()
    }

    /// Starts an independent acquisition of the same table: a copy of a suite
    /// is a second suite, released on its own.
    pub fn reacquire(&self) -> (a: Acquire)
        ensures
            a.registry() == self.guard().registry(),
            a.suite() == pen_suite(),
    {
        proof {
            use_type_invariant(self);
        }
        self.guard.reacquire()
    }

    /// The address of the acquired table.
    pub fn table_ptr(&self) -> (table: usize)
        ensures
            table == self.guard().table(),
    {
        self.guard.table_ptr()
    }
}

/// The table of images.
#[derive(Debug)]
pub struct ImageSuite {
    guard: SuiteGuard,
}

impl ImageSuite {
    #[verifier::type_invariant]
    spec fn holds_own_table(self) -> bool {
        self.guard.suite() == image_suite()
    }

    /// The guard that owns the acquired table.
    pub closed spec fn guard(self) -> SuiteGuard {
        self.guard
    }

    /// The (name, version) pair of this table.
    pub fn id() -> (id: SuiteId)
        ensures
            id == image_suite(),
    {
        SuiteId { name: SuiteName::Image, version: 1 }
    }

    /// Starts the acquisition of this table from the host. With a null
    /// registry root it fails at once with "unavailable", and nothing is
    /// called.
    pub fn new(registry: &Registry) -> (r: Result<Acquire, Error>)
        ensures
            registry.null() ==> r == Err::<Acquire, Error>(Error::Unavailable),
            !registry.null() ==> r is Ok && r->Ok_0.registry() == registry.raw
                && r->Ok_0.suite() == image_suite(),
    {
        Acquire::begin(registry, Self::id())
    }

    /// Wraps the guard of a completed acquisition. Returns `None` exactly when
    /// the guard owns some other table; the guard is then lost, so release it
    /// instead of handing it here.
    pub fn from_guard(guard: SuiteGuard) -> (s: Option<Self>)
        ensures
            s is Some <==> guard.suite() == image_suite(),
            s matches Some(suite) ==> suite.guard() == guard,
    {
        let id = guard.id();
        let own = Self::id();
        if id == own {
            Some(ImageSuite { guard })
        } else {
            None
        }
    }

    /// Ends the lifetime of the suite. The result is the one release call
    /// that is owed for its acquisition.
    pub fn release(self) -> (c: HostCall)
        ensures
            c@ == (CallView::Release { registry: self.guard().registry(), suite: image_suite() }),
            self.guard().suite() == image_suite(),
    {
        proof {
            use_type_invariant(&self);
        }
        self.guard.release()
    }

    /// Starts an independent acquisition of the same table: a copy of a suite
    /// is a second suite, released on its own.
    pub fn reacquire(&self) -> (a: Acquire)
        ensures
            a.registry() == self.guard().registry(),
            a.suite() == image_suite(),
    {
        proof {
            use_type_invariant(self);
        }
        self.guard.reacquire()
    }

    /// The address of the acquired table.
    pub fn table_ptr(&self) -> (table: usize)
        ensures
            table == self.guard().table(),
    {
        self.guard.table_ptr()
    }
}

/// Calls to draw paths.
#[derive(Debug)]
pub struct PathSuite {
    guard: SuiteGuard,
}

impl PathSuite {
    #[verifier::type_invariant]
    spec fn holds_own_table(self) -> bool {
        self.guard.suite() == path_suite()
    }

    /// The guard that owns the acquired table.
    pub closed spec fn guard(self) -> SuiteGuard {
        self.guard
    }

    /// The (name, version) pair of this table.
    pub fn id() -> (id: SuiteId)
        ensures
            id == path_suite(),
    {
        SuiteId { name: SuiteName::Path, version: 1 }
    }

    /// Starts the acquisition of this table from the host. With a null
    /// registry root it fails at once with "unavailable", and nothing is
    /// called.
    pub fn new(registry: &Registry) -> (r: Result<Acquire, Error>)
        ensures
            registry.null() ==> r == Err::<Acquire, Error>(Error::Unavailable),
            !registry.null() ==> r is Ok && r->Ok_0.registry() == registry.raw
                && r->Ok_0.suite() == path_suite(),
    {
        Acquire::begin(registry, Self::id())
    }

    /// Wraps the guard of a completed acquisition. Returns `None` exactly when
    /// the guard owns some other table; the guard is then lost, so release it
    /// instead of handing it here.
    pub fn from_guard(guard: SuiteGuard) -> (s: Option<Self>)
        ensures
            s is Some <==> guard.suite() == path_suite(),
            s matches Some(suite) ==> suite.guard() == guard,
    {
        let id = guard.id();
        let own = Self::id();
        if id == own {
            Some(PathSuite { guard })
        } else {
            None
        }
    }

    /// Ends the lifetime of the suite. The result is the one release call
    /// that is owed for its acquisition.
    pub fn release(self) -> (c: HostCall)
        ensures
            c@ == (CallView::Release { registry: self.guard().registry(), suite: path_suite() }),
            self.guard().suite() == path_suite(),
    {
        proof {
            use_type_invariant(&self);
        }
        self.guard.release()
    }

    /// Starts an independent acquisition of the same table: a copy of a suite
    /// is a second suite, released on its own.
    pub fn reacquire(&self) -> (a: Acquire)
        ensures
            a.registry() == self.guard().registry(),
            a.suite() == path_suite(),
    {
        proof {
            use_type_invariant(self);
        }
        self.guard.reacquire()
    }

    /// The address of the acquired table.
    pub fn table_ptr(&self) -> (table: usize)
        ensures
            table == self.guard().table(),
    {
        self.guard.table_ptr()
    }
}

/// The drawing context that the host hands to a custom user interface.
#[derive(Debug)]
pub struct Drawbot {
    handle: usize,
    suite: DrawbotSuite,
}

impl Drawbot {
    /// The raw handle of the context.
    pub closed spec fn handle(self) -> usize {
        self.handle
    }

    /// The table that the context is used through.
    pub closed spec fn suite(self) -> DrawbotSuite {
        self.suite
    }

    /// Wraps the context that the host handed over. The context stays the
    /// host's; only the table is owned.
    pub fn from_raw(handle: &DrawRef, suite: DrawbotSuite) -> (d: Self)
        ensures
            d.handle() == handle.raw,
            d.suite() == suite,
    {
        Drawbot { handle: handle.raw, suite }
    }

    /// The raw handle of the context.
    pub fn as_ptr(&self) -> (raw: usize)
        ensures
            raw == self.handle(),
    {
        self.handle
    }

    /// Get the supplier reference.
    pub fn supplier(&self) -> (p: Pending<SupplierRef>)
        ensures
            p.request() == (CallView::Invoke {
                table: self.suite().guard().table(),
                entry: Entry::Draw(DrawEntry::GetSupplier),
                args: seq![Value::Handle(self.handle())],
                outputs: SupplierRef::template(),
            }),
    {
        let args: Vec<Value> = vec![Value::Handle(self.handle)];
        proof {
            assert(args@ =~= seq![Value::Handle(self.handle())]);
        }
        Pending::new(self.suite.table_ptr(), Entry::Draw(DrawEntry::GetSupplier), args)
    }

    /// Get the surface reference.
    pub fn surface(&self) -> (p: Pending<SurfaceRef>)
        ensures
            p.request() == (CallView::Invoke {
                table: self.suite().guard().table(),
                entry: Entry::Draw(DrawEntry::GetSurface),
                args: seq![Value::Handle(self.handle())],
                outputs: SurfaceRef::template(),
            }),
    {
        let args: Vec<Value> = vec![Value::Handle(self.handle)];
        proof {
            assert(args@ =~= seq![Value::Handle(self.handle())]);
        }
        Pending::new(self.suite.table_ptr(), Entry::Draw(DrawEntry::GetSurface), args)
    }

    /// Fills the path with the foreground color of the overlay theme.
    ///
    /// Optionally draws the shadow using the overlay theme shadow color. The
    /// overlay theme table is acquired for this call and released after it.
    pub fn fill_theme_path(&self, registry: &Registry, path: &Path, draw_shadow: bool) -> (m: Scoped<()>)
        ensures
            m@ == ScopedView::<()>::initial(
                registry.raw,
                overlay_theme_suite(),
                Entry::Draw(DrawEntry::FillPath),
                seq![
                    Value::Handle(self.handle()),
                    Value::Handle(path.handle()),
                    Value::flag_of(draw_shadow),
                ],
            ),
    {
        let args: Vec<Value> = vec![
            Value::Handle(self.handle),
            Value::Handle(path.as_ptr()),
            Value::flag(draw_shadow),
        ];
        proof {
            assert(args@ =~= seq![
                Value::Handle(self.handle()),
                Value::Handle(path.handle()),
                Value::flag_of(draw_shadow),
            ]);
        }
        Scoped::start(
            registry,
            EffectCustomUIOverlayThemeSuite::id(),
            Entry::Draw(DrawEntry::FillPath),
            args,
        )
    }

    /// Fills a square vertex around the center point using the foreground
    /// color and the vertex size of the overlay theme. The overlay theme
    /// table is acquired for this call and released after it.
    pub fn fill_theme_vertex(&self, registry: &Registry, center_point: FloatPoint, draw_shadow: bool) -> (m: Scoped<()>)
        ensures
            m@ == ScopedView::<()>::initial(
                registry.raw,
                overlay_theme_suite(),
                Entry::Draw(DrawEntry::FillVertex),
                seq![
                    Value::Handle(self.handle()),
                    Value::Double(center_point.x),
                    Value::Double(center_point.y),
                    Value::flag_of(draw_shadow),
                ],
            ),
    {
        let args: Vec<Value> = vec![
            Value::Handle(self.handle),
            Value::Double(center_point.x),
            Value::Double(center_point.y),
            Value::flag(draw_shadow),
        ];
        proof {
            assert(args@ =~= seq![
                Value::Handle(self.handle()),
                Value::Double(center_point.x),
                Value::Double(center_point.y),
                Value::flag_of(draw_shadow),
            ]);
        }
        Scoped::start(
            registry,
            EffectCustomUIOverlayThemeSuite::id(),
            Entry::Draw(DrawEntry::FillVertex),
            args,
        )
    }

    /// Gives the context up: the one release call that is owed for its table.
    pub fn release(self) -> (c: HostCall)
        ensures
            c@ == (CallView::Release {
                registry: self.suite().guard().registry(),
                suite: drawbot_suite(),
            }),
    {
        self.suite.release()
    }
}

/// A pen: an owned drawing object.
#[derive(Debug)]
pub struct Pen {
    handle: usize,
    suite: PenSuite,
    supplier_suite: SupplierSuite,
}

impl Pen {
    /// The raw handle.
    pub closed spec fn handle(self) -> usize {
        self.handle
    }

    /// The suite that the object is used through.
    pub closed spec fn suite(self) -> PenSuite {
        self.suite
    }

    /// The supplier suite that the object is used through.
    pub closed spec fn supplier_suite(self) -> SupplierSuite {
        self.supplier_suite
    }

    /// Takes ownership of a handle that the host has just returned, and of
    /// the guards it is used through.
    pub fn from_raw(handle: usize, suite: PenSuite, supplier_suite: SupplierSuite) -> (o: Self)
        ensures
            o.handle() == handle,
            o.suite() == suite,
            o.supplier_suite() == supplier_suite,
    {
        Pen { handle, suite, supplier_suite }
    }

    /// The arguments of the call that sets a dash pattern: the pen, the
    /// number of dashes as the host's integer, then the dashes.
    pub open spec fn dash_args(handle: usize, dashes: Seq<u32>) -> Seq<Value> {
        seq![Value::Handle(handle), Value::Int(dashes.len() as i32)] + Seq::new(
            dashes.len(),
            |i: int| Value::Single(dashes[i]),
        )
    }

    /// Set pen dash pattern. Each dash is the bit pattern of a 32-bit
    /// floating-point length.
    pub fn set_dash_pattern(&mut self, dashes: Vec<u32>) -> (p: Pending<()>)
        ensures
            *final(self) == *old(self),
            p.request() == (CallView::Invoke {
                table: old(self).suite().guard().table(),
                entry: Entry::Draw(DrawEntry::SetDashPattern),
                args: Self::dash_args(old(self).handle(), dashes@),
                outputs: <()>::template(),
            }),
    {
        #[verifier::truncate]
        let count: i32 = dashes.len() as i32;
        let mut args: Vec<Value> = vec![Value::Handle(self.handle), Value::Int(count)];
        let mut i: usize = 0;
        while i < dashes.len()
            invariant
                i <= dashes@.len(),
                args@ == seq![Value::Handle(self.handle), Value::Int(count)] + Seq::new(
                    i as nat,
                    |k: int| Value::Single(dashes@[k]),
                ),
            decreases dashes@.len() - i,
        {
            args.push(Value::Single(dashes[i]));
            i = i + 1;
            proof {
                assert(args@ =~= seq![Value::Handle(self.handle), Value::Int(count)] + Seq::new(
                    i as nat,
                    |k: int| Value::Single(dashes@[k]),
                ));
            }
        }
        proof {
            assert(args@ =~= Self::dash_args(old(self).handle(), dashes@));
        }
        Pending::new(self.suite.table_ptr(), Entry::Draw(DrawEntry::SetDashPattern), args)
    }

    /// The calls that giving the pen up makes: the release of the handle
    /// through the supplier table, then the release of each table, in the
    /// order in which the object holds them.
    pub open spec fn teardown(self) -> Seq<CallView> {
        seq![
            CallView::Invoke {
                table: self.supplier_suite().guard().table(),
                entry: Entry::Draw(DrawEntry::ReleaseObject),
                args: seq![Value::Handle(self.handle())],
                outputs: Seq::<Value>::empty(),
            },
            CallView::Release {
                registry: self.suite().guard().registry(),
                suite: pen_suite(),
            },
            CallView::Release {
                registry: self.supplier_suite().guard().registry(),
                suite: supplier_suite(),
            },
        ]
    }

    /// Gives the pen up. Every call of the sequence is made whatever the
    /// host answers; a failure that the sequence ends with is the failure of
    /// the handle's release, which the caller is to treat as fatal.
    pub fn release(self) -> (s: Sequence)
        ensures
            s@ == (SequenceView {
                calls: self.teardown(),
                cursor: 0,
                stops: false,
                failure: None,
            }),
    {
        let Pen { handle, suite, supplier_suite } = self;
        let dispose: HostCall = supplier_suite.release_object(handle).call();
        let release_suite: HostCall = suite.release();
        let release_supplier_suite: HostCall = supplier_suite.release();
        let calls: Vec<HostCall> = vec![dispose, release_suite, release_supplier_suite];
        proof {
            assert(call_views(calls@) =~= self.teardown());
        }
        Sequence::run_all(calls)
    }
}

/// A brush: an owned drawing object.
#[derive(Debug)]
pub struct Brush {
    handle: usize,
    supplier_suite: SupplierSuite,
}

impl Brush {
    /// The raw handle.
    pub closed spec fn handle(self) -> usize {
        self.handle
    }

    /// The supplier suite that the object is used through.
    pub closed spec fn supplier_suite(self) -> SupplierSuite {
        self.supplier_suite
    }

    /// Takes ownership of a handle that the host has just returned, and of
    /// the guards it is used through.
    pub fn from_raw(handle: usize, supplier_suite: SupplierSuite) -> (o: Self)
        ensures
            o.handle() == handle,
            o.supplier_suite() == supplier_suite,
    {
        Brush { handle, supplier_suite }
    }

    /// The calls that giving the brush up makes: the release of the handle
    /// through the supplier table, then the release of each table, in the
    /// order in which the object holds them.
    pub open spec fn teardown(self) -> Seq<CallView> {
        seq![
            CallView::Invoke {
                table: self.supplier_suite().guard().table(),
                entry: Entry::Draw(DrawEntry::ReleaseObject),
                args: seq![Value::Handle(self.handle())],
                outputs: Seq::<Value>::empty(),
            },
            CallView::Release {
                registry: self.supplier_suite().guard().registry(),
                suite: supplier_suite(),
            },
        ]
    }

    /// Gives the brush up. Every call of the sequence is made whatever the
    /// host answers; a failure that the sequence ends with is the failure of
    /// the handle's release, which the caller is to treat as fatal.
    pub fn release(self) -> (s: Sequence)
        ensures
            s@ == (SequenceView {
                calls: self.teardown(),
                cursor: 0,
                stops: false,
                failure: None,
            }),
    {
        let Brush { handle, supplier_suite } = self;
        let dispose: HostCall = supplier_suite.release_object(handle).call();
        let release_supplier_suite: HostCall = supplier_suite.release();
        let calls: Vec<HostCall> = vec![dispose, release_supplier_suite];
        proof {
            assert(call_views(calls@) =~= self.teardown());
        }
        Sequence::run_all(calls)
    }
}

/// A font: an owned drawing object.
#[derive(Debug)]
pub struct Font {
    handle: usize,
    supplier_suite: SupplierSuite,
}

impl Font {
    /// The raw handle.
    pub closed spec fn handle(self) -> usize {
        self.handle
    }

    /// The supplier suite that the object is used through.
    pub closed spec fn supplier_suite(self) -> SupplierSuite {
        self.supplier_suite
    }

    /// Takes ownership of a handle that the host has just returned, and of
    /// the guards it is used through.
    pub fn from_raw(handle: usize, supplier_suite: SupplierSuite) -> (o: Self)
        ensures
            o.handle() == handle,
            o.supplier_suite() == supplier_suite,
    {
        Font { handle, supplier_suite }
    }

    /// The calls that giving the font up makes: the release of the handle
    /// through the supplier table, then the release of each table, in the
    /// order in which the object holds them.
    pub open spec fn teardown(self) -> Seq<CallView> {
        seq![
            CallView::Invoke {
                table: self.supplier_suite().guard().table(),
                entry: Entry::Draw(DrawEntry::ReleaseObject),
                args: seq![Value::Handle(self.handle())],
                outputs: Seq::<Value>::empty(),
            },
            CallView::Release {
                registry: self.supplier_suite().guard().registry(),
                suite: supplier_suite(),
            },
        ]
    }

    /// Gives the font up. Every call of the sequence is made whatever the
    /// host answers; a failure that the sequence ends with is the failure of
    /// the handle's release, which the caller is to treat as fatal.
    pub fn release(self) -> (s: Sequence)
        ensures
            s@ == (SequenceView {
                calls: self.teardown(),
                cursor: 0,
                stops: false,
                failure: None,
            }),
    {
        let Font { handle, supplier_suite } = self;
        let dispose: HostCall = supplier_suite.release_object(handle).call();
        let release_supplier_suite: HostCall = supplier_suite.release();
        let calls: Vec<HostCall> = vec![dispose, release_supplier_suite];
        proof {
            assert(call_views(calls@) =~= self.teardown());
        }
        Sequence::run_all(calls)
    }
}

/// An image: an owned drawing object.
#[derive(Debug)]
pub struct Image {
    handle: usize,
    suite: ImageSuite,
    supplier_suite: SupplierSuite,
}

impl Image {
    /// The raw handle.
    pub closed spec fn handle(self) -> usize {
        self.handle
    }

    /// The suite that the object is used through.
    pub closed spec fn suite(self) -> ImageSuite {
        self.suite
    }

    /// The supplier suite that the object is used through.
    pub closed spec fn supplier_suite(self) -> SupplierSuite {
        self.supplier_suite
    }

    /// Takes ownership of a handle that the host has just returned, and of
    /// the guards it is used through.
    pub fn from_raw(handle: usize, suite: ImageSuite, supplier_suite: SupplierSuite) -> (o: Self)
        ensures
            o.handle() == handle,
            o.suite() == suite,
            o.supplier_suite() == supplier_suite,
    {
        Image { handle, suite, supplier_suite }
    }

    /// Set image scale factor, given as the bit pattern of a 32-bit
    /// floating-point number.
    pub fn set_scale_factor(&self, scale_factor: u32) -> (p: Pending<()>)
        ensures
            p.request() == (CallView::Invoke {
                table: self.suite().guard().table(),
                entry: Entry::Draw(DrawEntry::SetScaleFactor),
                args: seq![
                    Value::Handle(self.handle()),
                    Value::Single(scale_factor),
                ],
                outputs: <()>::template(),
            }),
    {
        let args: Vec<Value> = vec![
            Value::Handle(self.handle),
            Value::Single(scale_factor),
        ];
        proof {
            assert(args@ =~= seq![
                Value::Handle(self.handle()),
                Value::Single(scale_factor),
            ]);
        }
        Pending::new(self.suite.table_ptr(), Entry::Draw(DrawEntry::SetScaleFactor), args)
    }

    /// The calls that giving the image up makes: the release of the handle
    /// through the supplier table, then the release of each table, in the
    /// order in which the object holds them.
    pub open spec fn teardown(self) -> Seq<CallView> {
        seq![
            CallView::Invoke {
                table: self.supplier_suite().guard().table(),
                entry: Entry::Draw(DrawEntry::ReleaseObject),
                args: seq![Value::Handle(self.handle())],
                outputs: Seq::<Value>::empty(),
            },
            CallView::Release {
                registry: self.suite().guard().registry(),
                suite: image_suite(),
            },
            CallView::Release {
                registry: self.supplier_suite().guard().registry(),
                suite: supplier_suite(),
            },
        ]
    }

    /// Gives the image up. Every call of the sequence is made whatever the
    /// host answers; a failure that the sequence ends with is the failure of
    /// the handle's release, which the caller is to treat as fatal.
    pub fn release(self) -> (s: Sequence)
        ensures
            s@ == (SequenceView {
                calls: self.teardown(),
                cursor: 0,
                stops: false,
                failure: None,
            }),
    {
        let Image { handle, suite, supplier_suite } = self;
        let dispose: HostCall = supplier_suite.release_object(handle).call();
        let release_suite: HostCall = suite.release();
        let release_supplier_suite: HostCall = supplier_suite.release();
        let calls: Vec<HostCall> = vec![dispose, release_suite, release_supplier_suite];
        proof {
            assert(call_views(calls@) =~= self.teardown());
        }
        Sequence::run_all(calls)
    }
}

/// A path: an owned drawing object.
#[derive(Debug)]
pub struct Path {
    handle: usize,
    suite: PathSuite,
    supplier_suite: SupplierSuite,
}

impl Path {
    /// The raw handle.
    pub closed spec fn handle(self) -> usize {
        self.handle
    }

    /// The suite that the object is used through.
    pub closed spec fn suite(self) -> PathSuite {
        self.suite
    }

    /// The supplier suite that the object is used through.
    pub closed spec fn supplier_suite(self) -> SupplierSuite {
        self.supplier_suite
    }

    /// Takes ownership of a handle that the host has just returned, and of
    /// the guards it is used through.
    pub fn from_raw(handle: usize, suite: PathSuite, supplier_suite: SupplierSuite) -> (o: Self)
        ensures
            o.handle() == handle,
            o.suite() == suite,
            o.supplier_suite() == supplier_suite,
    {
        Path { handle, suite, supplier_suite }
    }

    /// The raw handle of the path.
    pub fn as_ptr(&self) -> (raw: usize)
        ensures
            raw == self.handle(),
    {
        self.handle
    }

    /// Move to a point.
    pub fn move_to(&mut self, x: u32, y: u32) -> (p: Pending<()>)
        ensures
            p.request() == (CallView::Invoke {
                table: old(self).suite().guard().table(),
                entry: Entry::Draw(DrawEntry::MoveTo),
                args: seq![
                    Value::Handle(old(self).handle()),
                    Value::Single(x),
                    Value::Single(y),
                ],
                outputs: <()>::template(),
            }),
            *final(self) == *old(self),
    {
        let args: Vec<Value> = vec![
            Value::Handle(self.handle),
            Value::Single(x),
            Value::Single(y),
        ];
        proof {
            assert(args@ =~= seq![
                Value::Handle(old(self).handle()),
                Value::Single(x),
                Value::Single(y),
            ]);
        }
        Pending::new(self.suite.table_ptr(), Entry::Draw(DrawEntry::MoveTo), args)
    }

    /// Add a line to the path.
    pub fn line_to(&mut self, x: u32, y: u32) -> (p: Pending<()>)
        ensures
            p.request() == (CallView::Invoke {
                table: old(self).suite().guard().table(),
                entry: Entry::Draw(DrawEntry::LineTo),
                args: seq![
                    Value::Handle(old(self).handle()),
                    Value::Single(x),
                    Value::Single(y),
                ],
                outputs: <()>::template(),
            }),
            *final(self) == *old(self),
    {
        let args: Vec<Value> = vec![
            Value::Handle(self.handle),
            Value::Single(x),
            Value::Single(y),
        ];
        proof {
            assert(args@ =~= seq![
                Value::Handle(old(self).handle()),
                Value::Single(x),
                Value::Single(y),
            ]);
        }
        Pending::new(self.suite.table_ptr(), Entry::Draw(DrawEntry::LineTo), args)
    }

    /// Add a cubic bezier to the path. The points are passed field by field.
    pub fn bezier_to(&mut self, pt1: &PointF32, pt2: &PointF32, pt3: &PointF32) -> (p: Pending<()>)
        ensures
            p.request() == (CallView::Invoke {
                table: old(self).suite().guard().table(),
                entry: Entry::Draw(DrawEntry::BezierTo),
                args: seq![
                    Value::Handle(old(self).handle()),
                    Value::Single(pt1.x),
                    Value::Single(pt1.y),
                    Value::Single(pt2.x),
                    Value::Single(pt2.y),
                    Value::Single(pt3.x),
                    Value::Single(pt3.y),
                ],
                outputs: <()>::template(),
            }),
            *final(self) == *old(self),
    {
        let args: Vec<Value> = vec![
            Value::Handle(self.handle),
            Value::Single(pt1.x),
            Value::Single(pt1.y),
            Value::Single(pt2.x),
            Value::Single(pt2.y),
            Value::Single(pt3.x),
            Value::Single(pt3.y),
        ];
        proof {
            assert(args@ =~= seq![
                Value::Handle(old(self).handle()),
                Value::Single(pt1.x),
                Value::Single(pt1.y),
                Value::Single(pt2.x),
                Value::Single(pt2.y),
                Value::Single(pt3.x),
                Value::Single(pt3.y),
            ]);
        }
        Pending::new(self.suite.table_ptr(), Entry::Draw(DrawEntry::BezierTo), args)
    }

    /// Add a rect to the path. The rectangle is passed field by field: left,
    /// top, width, height.
    pub fn add_rect(&mut self, rect: &RectF32) -> (p: Pending<()>)
        ensures
            p.request() == (CallView::Invoke {
                table: old(self).suite().guard().table(),
                entry: Entry::Draw(DrawEntry::AddRect),
                args: seq![
                    Value::Handle(old(self).handle()),
                    Value::Single(rect.left),
                    Value::Single(rect.top),
                    Value::Single(rect.width),
                    Value::Single(rect.height),
                ],
                outputs: <()>::template(),
            }),
            *final(self) == *old(self),
    {
        let args: Vec<Value> = vec![
            Value::Handle(self.handle),
            Value::Single(rect.left),
            Value::Single(rect.top),
            Value::Single(rect.width),
            Value::Single(rect.height),
        ];
        proof {
            assert(args@ =~= seq![
                Value::Handle(old(self).handle()),
                Value::Single(rect.left),
                Value::Single(rect.top),
                Value::Single(rect.width),
                Value::Single(rect.height),
            ]);
        }
        Pending::new(self.suite.table_ptr(), Entry::Draw(DrawEntry::AddRect), args)
    }

    /// Add an arc to the path. Zero start degrees is 3 o'clock. Sweep is
    /// clockwise. Units for angle are in degrees.
    pub fn add_arc(&mut self, center: &PointF32, radius: u32, start_angle: u32, sweep: u32) -> (p: Pending<()>)
        ensures
            p.request() == (CallView::Invoke {
                table: old(self).suite().guard().table(),
                entry: Entry::Draw(DrawEntry::AddArc),
                args: seq![
                    Value::Handle(old(self).handle()),
                    Value::Single(center.x),
                    Value::Single(center.y),
                    Value::Single(radius),
                    Value::Single(start_angle),
                    Value::Single(sweep),
                ],
                outputs: <()>::template(),
            }),
            *final(self) == *old(self),
    {
        let args: Vec<Value> = vec![
            Value::Handle(self.handle),
            Value::Single(center.x),
            Value::Single(center.y),
            Value::Single(radius),
            Value::Single(start_angle),
            Value::Single(sweep),
        ];
        proof {
            assert(args@ =~= seq![
                Value::Handle(old(self).handle()),
                Value::Single(center.x),
                Value::Single(center.y),
                Value::Single(radius),
                Value::Single(start_angle),
                Value::Single(sweep),
            ]);
        }
        Pending::new(self.suite.table_ptr(), Entry::Draw(DrawEntry::AddArc), args)
    }

    /// Close the path.
    pub fn close(&mut self) -> (p: Pending<()>)
        ensures
            p.request() == (CallView::Invoke {
                table: old(self).suite().guard().table(),
                entry: Entry::Draw(DrawEntry::Close),
                args: seq![Value::Handle(old(self).handle())],
                outputs: <()>::template(),
            }),
            *final(self) == *old(self),
    {
        let args: Vec<Value> = vec![Value::Handle(self.handle)];
        proof {
            assert(args@ =~= seq![Value::Handle(old(self).handle())]);
        }
        Pending::new(self.suite.table_ptr(), Entry::Draw(DrawEntry::Close), args)
    }

    /// The calls that add a rounded rectangle: from the start of the top
    /// edge clockwise, each edge as a line and each corner as a quarter arc,
    /// then the close of the path.
    pub open spec fn rounded_rect_calls(self, o: RoundedRect) -> Seq<CallView> {
        seq![
                CallView::Invoke {
                    table: self.suite().guard().table(),
                    entry: Entry::Draw(DrawEntry::MoveTo),
                    args: seq![
                        Value::Handle(self.handle()),
                        Value::Single(o.inner_left),
                        Value::Single(o.top),
                    ],
                    outputs: Seq::<Value>::empty(),
                },
                CallView::Invoke {
                    table: self.suite().guard().table(),
                    entry: Entry::Draw(DrawEntry::LineTo),
                    args: seq![
                        Value::Handle(self.handle()),
                        Value::Single(o.inner_right),
                        Value::Single(o.top),
                    ],
                    outputs: Seq::<Value>::empty(),
                },
                CallView::Invoke {
                    table: self.suite().guard().table(),
                    entry: Entry::Draw(DrawEntry::AddArc),
                    args: seq![
                        Value::Handle(self.handle()),
                        Value::Single(o.inner_right),
                        Value::Single(o.inner_top),
                        Value::Single(o.radius),
                        Value::Single(DEGREES_MINUS_90),
                        Value::Single(DEGREES_90),
                    ],
                    outputs: Seq::<Value>::empty(),
                },
                CallView::Invoke {
                    table: self.suite().guard().table(),
                    entry: Entry::Draw(DrawEntry::LineTo),
                    args: seq![
                        Value::Handle(self.handle()),
                        Value::Single(o.right),
                        Value::Single(o.inner_bottom),
                    ],
                    outputs: Seq::<Value>::empty(),
                },
                CallView::Invoke {
                    table: self.suite().guard().table(),
                    entry: Entry::Draw(DrawEntry::AddArc),
                    args: seq![
                        Value::Handle(self.handle()),
                        Value::Single(o.inner_right),
                        Value::Single(o.inner_bottom),
                        Value::Single(o.radius),
                        Value::Single(DEGREES_0),
                        Value::Single(DEGREES_90),
                    ],
                    outputs: Seq::<Value>::empty(),
                },
                CallView::Invoke {
                    table: self.suite().guard().table(),
                    entry: Entry::Draw(DrawEntry::LineTo),
                    args: seq![
                        Value::Handle(self.handle()),
                        Value::Single(o.inner_left),
                        Value::Single(o.bottom),
                    ],
                    outputs: Seq::<Value>::empty(),
                },
                CallView::Invoke {
                    table: self.suite().guard().table(),
                    entry: Entry::Draw(DrawEntry::AddArc),
                    args: seq![
                        Value::Handle(self.handle()),
                        Value::Single(o.inner_left),
                        Value::Single(o.inner_bottom),
                        Value::Single(o.radius),
                        Value::Single(DEGREES_90),
                        Value::Single(DEGREES_90),
                    ],
                    outputs: Seq::<Value>::empty(),
                },
                CallView::Invoke {
                    table: self.suite().guard().table(),
                    entry: Entry::Draw(DrawEntry::LineTo),
                    args: seq![
                        Value::Handle(self.handle()),
                        Value::Single(o.left),
                        Value::Single(o.inner_top),
                    ],
                    outputs: Seq::<Value>::empty(),
                },
                CallView::Invoke {
                    table: self.suite().guard().table(),
                    entry: Entry::Draw(DrawEntry::AddArc),
                    args: seq![
                        Value::Handle(self.handle()),
                        Value::Single(o.inner_left),
                        Value::Single(o.inner_top),
                        Value::Single(o.radius),
                        Value::Single(DEGREES_180),
                        Value::Single(DEGREES_90),
                    ],
                    outputs: Seq::<Value>::empty(),
                },
                CallView::Invoke {
                    table: self.suite().guard().table(),
                    entry: Entry::Draw(DrawEntry::Close),
                    args: seq![
                        Value::Handle(self.handle()),
                    ],
                    outputs: Seq::<Value>::empty(),
                },
        ]
    }

    /// Add a rounded rect to the path. The sequence stops at the first call
    /// that fails and ends with its failure.
    pub fn add_rounded_rect(&mut self, outline: &RoundedRect) -> (s: Sequence)
        ensures
            *final(self) == *old(self),
            s@ == (SequenceView {
                calls: old(self).rounded_rect_calls(*outline),
                cursor: 0,
                stops: true,
                failure: None,
            }),
    {
        let step0: HostCall = self.move_to(outline.inner_left, outline.top).call();
        let step1: HostCall = self.line_to(outline.inner_right, outline.top).call();
        let step2: HostCall = self.add_arc(&PointF32 { x: outline.inner_right, y: outline.inner_top }, outline.radius, DEGREES_MINUS_90, DEGREES_90).call();
        let step3: HostCall = self.line_to(outline.right, outline.inner_bottom).call();
        let step4: HostCall = self.add_arc(&PointF32 { x: outline.inner_right, y: outline.inner_bottom }, outline.radius, DEGREES_0, DEGREES_90).call();
        let step5: HostCall = self.line_to(outline.inner_left, outline.bottom).call();
        let step6: HostCall = self.add_arc(&PointF32 { x: outline.inner_left, y: outline.inner_bottom }, outline.radius, DEGREES_90, DEGREES_90).call();
        let step7: HostCall = self.line_to(outline.left, outline.inner_top).call();
        let step8: HostCall = self.add_arc(&PointF32 { x: outline.inner_left, y: outline.inner_top }, outline.radius, DEGREES_180, DEGREES_90).call();
        let step9: HostCall = self.close().call();
        let calls: Vec<HostCall> = vec![step0, step1, step2, step3, step4, step5, step6, step7, step8, step9];
        proof {
            assert(call_views(calls@) =~= old(self).rounded_rect_calls(*outline));
        }
        Sequence::until_failure(calls)
    }

    /// The calls that giving the path up makes: the release of the handle
    /// through the supplier table, then the release of each table, in the
    /// order in which the object holds them.
    pub open spec fn teardown(self) -> Seq<CallView> {
        seq![
            CallView::Invoke {
                table: self.supplier_suite().guard().table(),
                entry: Entry::Draw(DrawEntry::ReleaseObject),
                args: seq![Value::Handle(self.handle())],
                outputs: Seq::<Value>::empty(),
            },
            CallView::Release {
                registry: self.suite().guard().registry(),
                suite: path_suite(),
            },
            CallView::Release {
                registry: self.supplier_suite().guard().registry(),
                suite: supplier_suite(),
            },
        ]
    }

    /// Gives the path up. Every call of the sequence is made whatever the
    /// host answers; a failure that the sequence ends with is the failure of
    /// the handle's release, which the caller is to treat as fatal.
    pub fn release(self) -> (s: Sequence)
        ensures
            s@ == (SequenceView {
                calls: self.teardown(),
                cursor: 0,
                stops: false,
                failure: None,
            }),
    {
        let Path { handle, suite, supplier_suite } = self;
        let dispose: HostCall = supplier_suite.release_object(handle).call();
        let release_suite: HostCall = suite.release();
        let release_supplier_suite: HostCall = supplier_suite.release();
        let calls: Vec<HostCall> = vec![dispose, release_suite, release_supplier_suite];
        proof {
            assert(call_views(calls@) =~= self.teardown());
        }
        Sequence::run_all(calls)
    }
}

} // verus!
