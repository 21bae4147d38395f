//! Plain values and tables shared with the effect interface of the host.

use vstd::prelude::*;
use crate::call::{CallView, HostCall};
use crate::decode::Decode;
use crate::entry::{overlay_theme_suite, DrawEntry, Entry, SuiteId, SuiteName};
use crate::error::Error;
use crate::handle::DrawRef;
use crate::pending::{Pending, Stored};
use crate::registry::{Acquire, Registry, SuiteGuard};
use crate::value::Value;

verus! {

/// A point with 64-bit floating-point coordinates, held as bit patterns.
#[derive(Clone, Copy, Debug, PartialEq, Eq, Structural, Hash)]
pub struct FloatPoint {
    pub x: u64,
    pub y: u64,
}

/// A point in time: `value` counted in units of which `scale` make a second.
#[derive(Clone, Copy, Debug, PartialEq, Eq, Structural, Hash)]
pub struct Time {
    pub value: i32,
    pub scale: u32,
}

/// A frame buffer as the effect interface describes it, as the host wrote
/// the description.
#[derive(Debug, PartialEq, Eq, Hash)]
pub struct EffectWorld {
    /// The bytes of the structure, as the host left them.
    pub effect_world: Vec<u8>,
}

impl Stored for EffectWorld {
    open spec fn bytes(&self) -> Seq<u8> {
        self.effect_world@
    }

    fn wrap(bytes: Vec<u8>) -> (v: Self) {
        EffectWorld { effect_world: bytes }
    }
}

/// A color with 64-bit floating-point channels. Every field is the bit
/// pattern of the channel's value.
#[derive(Clone, Copy, Debug, PartialEq, Eq, Structural, Hash)]
pub struct PixelF64 {
    /// Opacity.
    pub alpha: u64,
    /// Red.
    pub red: u64,
    /// Green.
    pub green: u64,
    /// Blue.
    pub blue: u64,
}

impl Decode for PixelF64 {
    open spec fn template() -> Seq<Value> {
        seq![
            Value::Double(0),
            Value::Double(0),
            Value::Double(0),
            Value::Double(0),
        ]
    }

    open spec fn readable(slots: Seq<Value>) -> bool {
        &&& slots[0] is Double
        &&& slots[1] is Double
        &&& slots[2] is Double
        &&& slots[3] is Double
    }

    open spec fn read(slots: Seq<Value>) -> Self {
        PixelF64 {
            alpha: slots[0]->Double_0,
            red: slots[1]->Double_0,
            green: slots[2]->Double_0,
            blue: slots[3]->Double_0,
        }
    }

    proof fn template_zeroed() {
    }

    fn width() -> (n: usize) {
        4
    }

    fn offer(out: &mut Vec<Value>) {
        out.push(Value::Double(0));
        out.push(Value::Double(0));
        out.push(Value::Double(0));
        out.push(Value::Double(0));
        proof {
            assert(out@ =~= old(out)@ + Self::template());
        }
    }

    fn decode(slots: &Vec<Value>, at: usize) -> (r: Option<Self>) {
        let len: usize = slots.len();
        proof {
            assert(Self::template().len() == 4);
        }
        let alpha: u64 = match slots[at] {
            Value::Double(v) => v,
            _ => {
                return None;
            },
        };
        let red: u64 = match slots[at + 1] {
            Value::Double(v) => v,
            _ => {
                return None;
            },
        };
        let green: u64 = match slots[at + 2] {
            Value::Double(v) => v,
            _ => {
                return None;
            },
        };
        let blue: u64 = match slots[at + 3] {
            Value::Double(v) => v,
            _ => {
                return None;
            },
        };
        Some(PixelF64 { alpha, red, green, blue })
    }
}

/// The table that draws in the colors of the overlay theme.
#[derive(Debug)]
pub struct EffectCustomUIOverlayThemeSuite {
    guard: SuiteGuard,
}

impl EffectCustomUIOverlayThemeSuite {
    #[verifier::type_invariant]
    spec fn holds_own_table(self) -> bool {
        self.guard.suite() == overlay_theme_suite()
    }

    /// The guard that owns the acquired table.
    pub closed spec fn guard(self) -> SuiteGuard {
        self.guard
    }

    /// The (name, version) pair of this table.
    pub fn id() -> (id: SuiteId)
        ensures
            id == overlay_theme_suite(),
    {
        SuiteId { name: SuiteName::OverlayTheme, version: 1 }
    }

    /// Starts the acquisition of this table from the host. With a null
    /// registry root it fails at once with "unavailable", and nothing is
    /// called.
    pub fn new(registry: &Registry) -> (r: Result<Acquire, Error>)
        ensures
            registry.null() ==> r == Err::<Acquire, Error>(Error::Unavailable),
            !registry.null() ==> r is Ok && r->Ok_0.registry() == registry.raw
                && r->Ok_0.suite() == overlay_theme_suite(),
    {
        Acquire::begin(registry, Self::id())
    }

    /// Wraps the guard of a completed acquisition. Returns `None` exactly when
    /// the guard owns some other table; the guard is then lost, so release it
    /// instead of handing it here.
    pub fn from_guard(guard: SuiteGuard) -> (s: Option<Self>)
        ensures
            s is Some <==> guard.suite() == overlay_theme_suite(),
            s matches Some(suite) ==> suite.guard() == guard,
    {
        let id = guard.id();
        let own = Self::id();
        if id == own {
            Some(EffectCustomUIOverlayThemeSuite { guard })
        } else {
            None
        }
    }

    /// Ends the lifetime of the suite. The result is the one release call
    /// that is owed for its acquisition.
    pub fn release(self) -> (c: HostCall)
        ensures
            c@ == (CallView::Release { registry: self.guard().registry(), suite: overlay_theme_suite() }),
            self.guard().suite() == overlay_theme_suite(),
    {
        proof {
            use_type_invariant(&self);
        }
        self.guard.release()
    }

    /// Starts an independent acquisition of the same table: a copy of a suite
    /// is a second suite, released on its own.
    pub fn reacquire(&self) -> (a: Acquire)
        ensures
            a.registry() == self.guard().registry(),
            a.suite() == overlay_theme_suite(),
    {
        proof {
            use_type_invariant(self);
        }
        self.guard.reacquire()
    }

    /// Fills the path with the foreground color of the overlay theme,
    /// optionally drawing the shadow.
    pub fn fill_path(&self, drawbot: &DrawRef, path: usize, draw_shadow: bool) -> (p: Pending<()>)
        ensures
            p.request() == (CallView::Invoke {
                table: self.guard().table(),
                entry: Entry::Draw(DrawEntry::FillPath),
                args: seq![
                    Value::Handle(drawbot.raw),
                    Value::Handle(path),
                    Value::flag_of(draw_shadow),
                ],
                outputs: <()>::template(),
            }),
    {
        let args: Vec<Value> = vec![
            Value::Handle(drawbot.raw),
            Value::Handle(path),
            Value::flag(draw_shadow),
        ];
        proof {
            assert(args@ =~= seq![
                Value::Handle(drawbot.raw),
                Value::Handle(path),
                Value::flag_of(draw_shadow),
            ]);
        }
        Pending::new(self.guard.table_ptr(), Entry::Draw(DrawEntry::FillPath), args)
    }

    /// Fills a square vertex around the center point, optionally drawing the
    /// shadow. The point is passed field by field.
    pub fn fill_vertex(&self, drawbot: &DrawRef, center_point: FloatPoint, draw_shadow: bool) -> (p: Pending<()>)
        ensures
            p.request() == (CallView::Invoke {
                table: self.guard().table(),
                entry: Entry::Draw(DrawEntry::FillVertex),
                args: seq![
                    Value::Handle(drawbot.raw),
                    Value::Double(center_point.x),
                    Value::Double(center_point.y),
                    Value::flag_of(draw_shadow),
                ],
                outputs: <()>::template(),
            }),
    {
        let args: Vec<Value> = vec![
            Value::Handle(drawbot.raw),
            Value::Double(center_point.x),
            Value::Double(center_point.y),
            Value::flag(draw_shadow),
        ];
        proof {
            assert(args@ =~= seq![
                Value::Handle(drawbot.raw),
                Value::Double(center_point.x),
                Value::Double(center_point.y),
                Value::flag_of(draw_shadow),
            ]);
        }
        Pending::new(self.guard.table_ptr(), Entry::Draw(DrawEntry::FillVertex), args)
    }
}

} // verus!
