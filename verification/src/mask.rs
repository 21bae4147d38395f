//! The layer mask table and the mask outline table.

use vstd::prelude::*;
use crate::call::{CallView, HostCall};
use crate::decode::{decode_handle, handle_template, offer_handle, Decode};
use crate::entry::{
    mask_outline_suite, mask_suite, Entry, MaskEntry, MaskOutlineEntry, SuiteId, SuiteName,
};
use crate::error::Error;
use crate::handle::LayerHandle;
use crate::pending::Pending;
use crate::pf::PixelF64;
use crate::registry::{Acquire, Registry, SuiteGuard};
use crate::value::Value;

verus! {

/// Access, manipulate, and delete a layer's masks.
#[derive(Debug)]
pub struct MaskSuite {
    guard: SuiteGuard,
}

impl MaskSuite {
    #[verifier::type_invariant]
    spec fn holds_own_table(self) -> bool {
        self.guard.suite() == mask_suite()
    }

    /// The guard that owns the acquired table.
    pub closed spec fn guard(self) -> SuiteGuard {
        self.guard
    }

    /// The (name, version) pair of this table.
    pub fn id() -> (id: SuiteId)
        ensures
            id == mask_suite(),
    {
        SuiteId { name: SuiteName::Mask, version: 6 }
    }

    /// Starts the acquisition of this table from the host. With a null
    /// registry root it fails at once with "unavailable", and nothing is
    /// called.
    pub fn new(registry: &Registry) -> (r: Result<Acquire, Error>)
        ensures
            registry.null() ==> r == Err::<Acquire, Error>(Error::Unavailable),
            !registry.null() ==> r is Ok && r->Ok_0.registry() == registry.raw
                && r->Ok_0.suite() == mask_suite(),
    {
        Acquire::begin(registry, Self::id())
    }

    /// Wraps the guard of a completed acquisition. Returns `None` exactly when
    /// the guard owns some other table; the guard is then lost, so release it
    /// instead of handing it here.
    pub fn from_guard(guard: SuiteGuard) -> (s: Option<Self>)
        ensures
            s is Some <==> guard.suite() == mask_suite(),
            s matches Some(suite) ==> suite.guard() == guard,
    {
        let id = guard.id();
        let own = Self::id();
        if id == own {
            Some(MaskSuite { guard })
        } else {
            None
        }
    }

    /// Ends the lifetime of the suite. The result is the one release call
    /// that is owed for its acquisition.
    pub fn release(self) -> (c: HostCall)
        ensures
            c@ == (CallView::Release { registry: self.guard().registry(), suite: mask_suite() }),
            self.guard().suite() == mask_suite(),
    {
        proof {
            use_type_invariant(&self);
        }
        self.guard.release()
    }

    /// Starts an independent acquisition of the same table: a copy of a suite
    /// is a second suite, released on its own.
    pub fn reacquire(&self) -> (a: Acquire)
        ensures
            a.registry() == self.guard().registry(),
            a.suite() == mask_suite(),
    {
        proof {
            use_type_invariant(self);
        }
        self.guard.reacquire()
    }

    /// Counts the masks applied to a layer.
    pub fn layer_num_masks(&self, layer: &LayerHandle) -> (p: Pending<i32>)
        ensures
            p.request() == (CallView::Invoke {
                table: self.guard().table(),
                entry: Entry::Mask(MaskEntry::GetLayerNumMasks),
                args: seq![
                    Value::Handle(layer.raw),
                ],
                outputs: i32::template(),
            }),
    {
        let args: Vec<Value> = vec![
            Value::Handle(layer.raw),
        ];
        proof {
            assert(args@ =~= seq![
                Value::Handle(layer.raw),
            ]);
        }
        Pending::new(self.guard.table_ptr(), Entry::Mask(MaskEntry::GetLayerNumMasks), args)
    }

    /// Given a layer handle and mask index, returns the mask as an owned handle.
    pub fn layer_mask_by_index(&self, layer: &LayerHandle, mask_index: i32) -> (p: Pending<MaskRefHandle>)
        ensures
            p.request() == (CallView::Invoke {
                table: self.guard().table(),
                entry: Entry::Mask(MaskEntry::GetLayerMaskByIndex),
                args: seq![
                    Value::Handle(layer.raw),
                    Value::Int(mask_index),
                ],
                outputs: MaskRefHandle::template(),
            }),
    {
        let args: Vec<Value> = vec![
            Value::Handle(layer.raw),
            Value::Int(mask_index),
        ];
        proof {
            assert(args@ =~= seq![
                Value::Handle(layer.raw),
                Value::Int(mask_index),
            ]);
        }
        Pending::new(self.guard.table_ptr(), Entry::Mask(MaskEntry::GetLayerMaskByIndex), args)
    }

    /// Dispose of a mask handle. The handle keeps its raw value and is no
    /// longer owned: giving it up later calls nothing, so that the mask is
    /// disposed of once.
    pub fn dispose_mask(&self, mask: &mut MaskRefHandle) -> (p: Pending<()>)
        ensures
            final(mask).raw == old(mask).raw,
            !final(mask).owned,
            p.request() == MaskRefHandle::disposal(self.guard().table(), old(mask).raw),
    {
        let args: Vec<Value> = vec![Value::Handle(mask.as_ptr())];
        proof {
            assert(args@ =~= seq![Value::Handle(old(mask).raw)]);
        }
        mask.owned = false;
        Pending::new(self.guard.table_ptr(), Entry::Mask(MaskEntry::DisposeMask), args)
    }

    /// Given a mask handle, determines if the mask is inverted or not.
    pub fn mask_invert(&self, mask: &MaskRefHandle) -> (p: Pending<bool>)
        ensures
            p.request() == (CallView::Invoke {
                table: self.guard().table(),
                entry: Entry::Mask(MaskEntry::GetMaskInvert),
                args: seq![
                    Value::Handle(mask.raw),
                ],
                outputs: bool::template(),
            }),
    {
        let args: Vec<Value> = vec![
            Value::Handle(mask.raw),
        ];
        proof {
            assert(args@ =~= seq![
                Value::Handle(mask.raw),
            ]);
        }
        Pending::new(self.guard.table_ptr(), Entry::Mask(MaskEntry::GetMaskInvert), args)
    }

    /// Sets the inversion state of a mask.
    pub fn set_mask_invert(&self, mask: &MaskRefHandle, invert: bool) -> (p: Pending<()>)
        ensures
            p.request() == (CallView::Invoke {
                table: self.guard().table(),
                entry: Entry::Mask(MaskEntry::SetMaskInvert),
                args: seq![
                    Value::Handle(mask.raw),
                    Value::flag_of(invert),
                ],
                outputs: <()>::template(),
            }),
    {
        let args: Vec<Value> = vec![
            Value::Handle(mask.raw),
            Value::flag(invert),
        ];
        proof {
            assert(args@ =~= seq![
                Value::Handle(mask.raw),
                Value::flag_of(invert),
            ]);
        }
        Pending::new(self.guard.table_ptr(), Entry::Mask(MaskEntry::SetMaskInvert), args)
    }

    /// Given a mask handle, returns the current mode of the mask.
    ///
    /// * [`MaskMode::NoMode`] does nothing.
    /// * [`MaskMode::Add`] is the default behavior.
    pub fn mask_mode(&self, mask: &MaskRefHandle) -> (p: Pending<MaskMode>)
        ensures
            p.request() == (CallView::Invoke {
                table: self.guard().table(),
                entry: Entry::Mask(MaskEntry::GetMaskMode),
                args: seq![
                    Value::Handle(mask.raw),
                ],
                outputs: MaskMode::template(),
            }),
    {
        let args: Vec<Value> = vec![
            Value::Handle(mask.raw),
        ];
        proof {
            assert(args@ =~= seq![
                Value::Handle(mask.raw),
            ]);
        }
        Pending::new(self.guard.table_ptr(), Entry::Mask(MaskEntry::GetMaskMode), args)
    }

    /// Sets the mode of the given mask.
    pub fn set_mask_mode(&self, mask: &MaskRefHandle, mode: MaskMode) -> (p: Pending<()>)
        ensures
            p.request() == (CallView::Invoke {
                table: self.guard().table(),
                entry: Entry::Mask(MaskEntry::SetMaskMode),
                args: seq![
                    Value::Handle(mask.raw),
                    Value::Int(mode.raw_of()),
                ],
                outputs: <()>::template(),
            }),
    {
        let args: Vec<Value> = vec![
            Value::Handle(mask.raw),
            Value::Int(mode.to_raw()),
        ];
        proof {
            assert(args@ =~= seq![
                Value::Handle(mask.raw),
                Value::Int(mode.raw_of()),
            ]);
        }
        Pending::new(self.guard.table_ptr(), Entry::Mask(MaskEntry::SetMaskMode), args)
    }

    /// Retrieves the motion blur setting for the given mask.
    pub fn mask_motion_blur_state(&self, mask: &MaskRefHandle) -> (p: Pending<MaskMBlur>)
        ensures
            p.request() == (CallView::Invoke {
                table: self.guard().table(),
                entry: Entry::Mask(MaskEntry::GetMaskMotionBlurState),
                args: seq![
                    Value::Handle(mask.raw),
                ],
                outputs: MaskMBlur::template(),
            }),
    {
        let args: Vec<Value> = vec![
            Value::Handle(mask.raw),
        ];
        proof {
            assert(args@ =~= seq![
                Value::Handle(mask.raw),
            ]);
        }
        Pending::new(self.guard.table_ptr(), Entry::Mask(MaskEntry::GetMaskMotionBlurState), args)
    }

    /// Sets the motion blur setting for the given mask.
    pub fn set_mask_motion_blur_state(&self, mask: &MaskRefHandle, blur_state: MaskMBlur) -> (p: Pending<()>)
        ensures
            p.request() == (CallView::Invoke {
                table: self.guard().table(),
                entry: Entry::Mask(MaskEntry::SetMaskMotionBlurState),
                args: seq![
                    Value::Handle(mask.raw),
                    Value::Byte(blur_state.raw_of()),
                ],
                outputs: <()>::template(),
            }),
    {
        let args: Vec<Value> = vec![
            Value::Handle(mask.raw),
            Value::Byte(blur_state.to_raw()),
        ];
        proof {
            assert(args@ =~= seq![
                Value::Handle(mask.raw),
                Value::Byte(blur_state.raw_of()),
            ]);
        }
        Pending::new(self.guard.table_ptr(), Entry::Mask(MaskEntry::SetMaskMotionBlurState), args)
    }

    /// Gets the type of feather falloff for the given mask, either
    /// [`MaskFeatherFalloff::Smooth`] or [`MaskFeatherFalloff::Linear`].
    pub fn mask_feather_falloff(&self, mask: &MaskRefHandle) -> (p: Pending<MaskFeatherFalloff>)
        ensures
            p.request() == (CallView::Invoke {
                table: self.guard().table(),
                entry: Entry::Mask(MaskEntry::GetMaskFeatherFalloff),
                args: seq![
                    Value::Handle(mask.raw),
                ],
                outputs: MaskFeatherFalloff::template(),
            }),
    {
        let args: Vec<Value> = vec![
            Value::Handle(mask.raw),
        ];
        proof {
            assert(args@ =~= seq![
                Value::Handle(mask.raw),
            ]);
        }
        Pending::new(self.guard.table_ptr(), Entry::Mask(MaskEntry::GetMaskFeatherFalloff), args)
    }

    /// Sets the type of feather falloff for the given mask.
    pub fn set_mask_feather_falloff(&self, mask: &MaskRefHandle, falloff: MaskFeatherFalloff) -> (p: Pending<()>)
        ensures
            p.request() == (CallView::Invoke {
                table: self.guard().table(),
                entry: Entry::Mask(MaskEntry::SetMaskFeatherFalloff),
                args: seq![
                    Value::Handle(mask.raw),
                    Value::Byte(falloff.raw_of()),
                ],
                outputs: <()>::template(),
            }),
    {
        let args: Vec<Value> = vec![
            Value::Handle(mask.raw),
            Value::Byte(falloff.to_raw()),
        ];
        proof {
            assert(args@ =~= seq![
                Value::Handle(mask.raw),
                Value::Byte(falloff.raw_of()),
            ]);
        }
        Pending::new(self.guard.table_ptr(), Entry::Mask(MaskEntry::SetMaskFeatherFalloff), args)
    }

    /// Retrieves the color of the specified mask: alpha, red, green and blue,
    /// in that order.
    pub fn mask_color(&self, mask: &MaskRefHandle) -> (p: Pending<PixelF64>)
        ensures
            p.request() == (CallView::Invoke {
                table: self.guard().table(),
                entry: Entry::Mask(MaskEntry::GetMaskColor),
                args: seq![
                    Value::Handle(mask.raw),
                ],
                outputs: PixelF64::template(),
            }),
    {
        let args: Vec<Value> = vec![
            Value::Handle(mask.raw),
        ];
        proof {
            assert(args@ =~= seq![
                Value::Handle(mask.raw),
            ]);
        }
        Pending::new(self.guard.table_ptr(), Entry::Mask(MaskEntry::GetMaskColor), args)
    }

    /// Sets the color of the specified mask. The color is passed field by
    /// field: alpha, red, green, blue.
    pub fn set_mask_color(&self, mask: &MaskRefHandle, color: PixelF64) -> (p: Pending<()>)
        ensures
            p.request() == (CallView::Invoke {
                table: self.guard().table(),
                entry: Entry::Mask(MaskEntry::SetMaskColor),
                args: seq![
                    Value::Handle(mask.raw),
                    Value::Double(color.alpha),
                    Value::Double(color.red),
                    Value::Double(color.green),
                    Value::Double(color.blue),
                ],
                outputs: <()>::template(),
            }),
    {
        let args: Vec<Value> = vec![
            Value::Handle(mask.raw),
            Value::Double(color.alpha),
            Value::Double(color.red),
            Value::Double(color.green),
            Value::Double(color.blue),
        ];
        proof {
            assert(args@ =~= seq![
                Value::Handle(mask.raw),
                Value::Double(color.alpha),
                Value::Double(color.red),
                Value::Double(color.green),
                Value::Double(color.blue),
            ]);
        }
        Pending::new(self.guard.table_ptr(), Entry::Mask(MaskEntry::SetMaskColor), args)
    }

    /// Retrieves the lock state of the specified mask.
    pub fn mask_lock_state(&self, mask: &MaskRefHandle) -> (p: Pending<bool>)
        ensures
            p.request() == (CallView::Invoke {
                table: self.guard().table(),
                entry: Entry::Mask(MaskEntry::GetMaskLockState),
                args: seq![
                    Value::Handle(mask.raw),
                ],
                outputs: bool::template(),
            }),
    {
        let args: Vec<Value> = vec![
            Value::Handle(mask.raw),
        ];
        proof {
            assert(args@ =~= seq![
                Value::Handle(mask.raw),
            ]);
        }
        Pending::new(self.guard.table_ptr(), Entry::Mask(MaskEntry::GetMaskLockState), args)
    }

    /// Sets the lock state of the specified mask.
    pub fn set_mask_lock_state(&self, mask: &MaskRefHandle, lock: bool) -> (p: Pending<()>)
        ensures
            p.request() == (CallView::Invoke {
                table: self.guard().table(),
                entry: Entry::Mask(MaskEntry::SetMaskLockState),
                args: seq![
                    Value::Handle(mask.raw),
                    Value::flag_of(lock),
                ],
                outputs: <()>::template(),
            }),
    {
        let args: Vec<Value> = vec![
            Value::Handle(mask.raw),
            Value::flag(lock),
        ];
        proof {
            assert(args@ =~= seq![
                Value::Handle(mask.raw),
                Value::flag_of(lock),
            ]);
        }
        Pending::new(self.guard.table_ptr(), Entry::Mask(MaskEntry::SetMaskLockState), args)
    }

    /// Returns whether or not the given mask is used as a rotobezier.
    pub fn mask_is_roto_bezier(&self, mask: &MaskRefHandle) -> (p: Pending<bool>)
        ensures
            p.request() == (CallView::Invoke {
                table: self.guard().table(),
                entry: Entry::Mask(MaskEntry::GetMaskIsRotoBezier),
                args: seq![
                    Value::Handle(mask.raw),
                ],
                outputs: bool::template(),
            }),
    {
        let args: Vec<Value> = vec![
            Value::Handle(mask.raw),
        ];
        proof {
            assert(args@ =~= seq![
                Value::Handle(mask.raw),
            ]);
        }
        Pending::new(self.guard.table_ptr(), Entry::Mask(MaskEntry::GetMaskIsRotoBezier), args)
    }

    /// Sets whether a given mask is to be used as a rotobezier.
    pub fn set_mask_is_roto_bezier(&self, mask: &MaskRefHandle, is_roto_bezier: bool) -> (p: Pending<()>)
        ensures
            p.request() == (CallView::Invoke {
                table: self.guard().table(),
                entry: Entry::Mask(MaskEntry::SetMaskIsRotoBezier),
                args: seq![
                    Value::Handle(mask.raw),
                    Value::flag_of(is_roto_bezier),
                ],
                outputs: <()>::template(),
            }),
    {
        let args: Vec<Value> = vec![
            Value::Handle(mask.raw),
            Value::flag(is_roto_bezier),
        ];
        proof {
            assert(args@ =~= seq![
                Value::Handle(mask.raw),
                Value::flag_of(is_roto_bezier),
            ]);
        }
        Pending::new(self.guard.table_ptr(), Entry::Mask(MaskEntry::SetMaskIsRotoBezier), args)
    }

    /// Duplicates a given mask. The duplicate is an owned handle.
    pub fn duplicate_mask(&self, mask: &MaskRefHandle) -> (p: Pending<MaskRefHandle>)
        ensures
            p.request() == (CallView::Invoke {
                table: self.guard().table(),
                entry: Entry::Mask(MaskEntry::DuplicateMask),
                args: seq![
                    Value::Handle(mask.raw),
                ],
                outputs: MaskRefHandle::template(),
            }),
    {
        let args: Vec<Value> = vec![
            Value::Handle(mask.raw),
        ];
        proof {
            assert(args@ =~= seq![
                Value::Handle(mask.raw),
            ]);
        }
        Pending::new(self.guard.table_ptr(), Entry::Mask(MaskEntry::DuplicateMask), args)
    }

    /// Creates a new mask on the referenced layer, with zero nodes. Returns
    /// the new mask, as an owned handle, and its index.
    pub fn create_new_mask(&self, layer: &LayerHandle) -> (p: Pending<(MaskRefHandle, i32)>)
        ensures
            p.request() == (CallView::Invoke {
                table: self.guard().table(),
                entry: Entry::Mask(MaskEntry::CreateNewMask),
                args: seq![
                    Value::Handle(layer.raw),
                ],
                outputs: <(MaskRefHandle, i32)>::template(),
            }),
    {
        let args: Vec<Value> = vec![
            Value::Handle(layer.raw),
        ];
        proof {
            assert(args@ =~= seq![
                Value::Handle(layer.raw),
            ]);
        }
        Pending::new(self.guard.table_ptr(), Entry::Mask(MaskEntry::CreateNewMask), args)
    }

    /// Deletes a mask from its layer. If the mask or a child stream is
    /// selected, the current selection within the composition becomes empty.
    pub fn delete_mask_from_layer(&self, mask: &MaskRefHandle) -> (p: Pending<()>)
        ensures
            p.request() == (CallView::Invoke {
                table: self.guard().table(),
                entry: Entry::Mask(MaskEntry::DeleteMaskFromLayer),
                args: seq![
                    Value::Handle(mask.raw),
                ],
                outputs: <()>::template(),
            }),
    {
        let args: Vec<Value> = vec![
            Value::Handle(mask.raw),
        ];
        proof {
            assert(args@ =~= seq![
                Value::Handle(mask.raw),
            ]);
        }
        Pending::new(self.guard.table_ptr(), Entry::Mask(MaskEntry::DeleteMaskFromLayer), args)
    }

    /// Retrieves the identifier of the given mask, for use in uniquely
    /// identifying the mask.
    pub fn mask_id(&self, mask: &MaskRefHandle) -> (p: Pending<i32>)
        ensures
            p.request() == (CallView::Invoke {
                table: self.guard().table(),
                entry: Entry::Mask(MaskEntry::GetMaskId),
                args: seq![
                    Value::Handle(mask.raw),
                ],
                outputs: i32::template(),
            }),
    {
        let args: Vec<Value> = vec![
            Value::Handle(mask.raw),
        ];
        proof {
            assert(args@ =~= seq![
                Value::Handle(mask.raw),
            ]);
        }
        Pending::new(self.guard.table_ptr(), Entry::Mask(MaskEntry::GetMaskId), args)
    }
}

/// The details of a mask: whether its path is open, its vertices and its
/// feathers.
///
/// The mask table tells about the masks on a layer, but not about their
/// outlines; the host has to process a mask to produce them. An outline handle
/// is obtained from the mask's outline stream.
#[derive(Debug)]
pub struct MaskOutlineSuite {
    guard: SuiteGuard,
}

impl MaskOutlineSuite {
    #[verifier::type_invariant]
    spec fn holds_own_table(self) -> bool {
        self.guard.suite() == mask_outline_suite()
    }

    /// The guard that owns the acquired table.
    pub closed spec fn guard(self) -> SuiteGuard {
        self.guard
    }

    /// The (name, version) pair of this table.
    pub fn id() -> (id: SuiteId)
        ensures
            id == mask_outline_suite(),
    {
        SuiteId { name: SuiteName::MaskOutline, version: 3 }
    }

    /// Starts the acquisition of this table from the host. With a null
    /// registry root it fails at once with "unavailable", and nothing is
    /// called.
    pub fn new(registry: &Registry) -> (r: Result<Acquire, Error>)
        ensures
            registry.null() ==> r == Err::<Acquire, Error>(Error::Unavailable),
            !registry.null() ==> r is Ok && r->Ok_0.registry() == registry.raw
                && r->Ok_0.suite() == mask_outline_suite(),
    {
        Acquire::begin(registry, Self::id())
    }

    /// Wraps the guard of a completed acquisition. Returns `None` exactly when
    /// the guard owns some other table; the guard is then lost, so release it
    /// instead of handing it here.
    pub fn from_guard(guard: SuiteGuard) -> (s: Option<Self>)
        ensures
            s is Some <==> guard.suite() == mask_outline_suite(),
            s matches Some(suite) ==> suite.guard() == guard,
    {
        let id = guard.id();
        let own = Self::id();
        if id == own {
            Some(MaskOutlineSuite { guard })
        } else {
            None
        }
    }

    /// Ends the lifetime of the suite. The result is the one release call
    /// that is owed for its acquisition.
    pub fn release(self) -> (c: HostCall)
        ensures
            c@ == (CallView::Release { registry: self.guard().registry(), suite: mask_outline_suite() }),
            self.guard().suite() == mask_outline_suite(),
    {
        proof {
            use_type_invariant(&self);
        }
        self.guard.release()
    }

    /// Starts an independent acquisition of the same table: a copy of a suite
    /// is a second suite, released on its own.
    pub fn reacquire(&self) -> (a: Acquire)
        ensures
            a.registry() == self.guard().registry(),
            a.suite() == mask_outline_suite(),
    {
        proof {
            use_type_invariant(self);
        }
        self.guard.reacquire()
    }

    /// Given a mask outline handle, determines if the mask path is open or
    /// closed.
    pub fn is_mask_outline_open(&self, mask_outline: &MaskOutlineHandle) -> (p: Pending<bool>)
        ensures
            p.request() == (CallView::Invoke {
                table: self.guard().table(),
                entry: Entry::MaskOutline(MaskOutlineEntry::IsMaskOutlineOpen),
                args: seq![
                    Value::Handle(mask_outline.raw),
                ],
                outputs: bool::template(),
            }),
    {
        let args: Vec<Value> = vec![
            Value::Handle(mask_outline.raw),
        ];
        proof {
            assert(args@ =~= seq![
                Value::Handle(mask_outline.raw),
            ]);
        }
        Pending::new(self.guard.table_ptr(), Entry::MaskOutline(MaskOutlineEntry::IsMaskOutlineOpen), args)
    }

    /// Sets the open state of the given mask outline.
    pub fn set_mask_outline_open(&self, mask_outline: &MaskOutlineHandle, open: bool) -> (p: Pending<()>)
        ensures
            p.request() == (CallView::Invoke {
                table: self.guard().table(),
                entry: Entry::MaskOutline(MaskOutlineEntry::SetMaskOutlineOpen),
                args: seq![
                    Value::Handle(mask_outline.raw),
                    Value::flag_of(open),
                ],
                outputs: <()>::template(),
            }),
    {
        let args: Vec<Value> = vec![
            Value::Handle(mask_outline.raw),
            Value::flag(open),
        ];
        proof {
            assert(args@ =~= seq![
                Value::Handle(mask_outline.raw),
                Value::flag_of(open),
            ]);
        }
        Pending::new(self.guard.table_ptr(), Entry::MaskOutline(MaskOutlineEntry::SetMaskOutlineOpen), args)
    }

    /// Given a mask outline handle, returns the number of segments in the path.
    pub fn mask_outline_num_segments(&self, mask_outline: &MaskOutlineHandle) -> (p: Pending<i32>)
        ensures
            p.request() == (CallView::Invoke {
                table: self.guard().table(),
                entry: Entry::MaskOutline(MaskOutlineEntry::GetMaskOutlineNumSegments),
                args: seq![
                    Value::Handle(mask_outline.raw),
                ],
                outputs: i32::template(),
            }),
    {
        let args: Vec<Value> = vec![
            Value::Handle(mask_outline.raw),
        ];
        proof {
            assert(args@ =~= seq![
                Value::Handle(mask_outline.raw),
            ]);
        }
        Pending::new(self.guard.table_ptr(), Entry::MaskOutline(MaskOutlineEntry::GetMaskOutlineNumSegments), args)
    }

    /// Given a mask outline handle and a point between 0 and the total number
    /// of segments, returns the vertex at that point.
    pub fn mask_outline_vertex_info(&self, mask_outline: &MaskOutlineHandle, point: i32) -> (p: Pending<MaskVertex>)
        ensures
            p.request() == (CallView::Invoke {
                table: self.guard().table(),
                entry: Entry::MaskOutline(MaskOutlineEntry::GetMaskOutlineVertexInfo),
                args: seq![
                    Value::Handle(mask_outline.raw),
                    Value::Int(point),
                ],
                outputs: MaskVertex::template(),
            }),
    {
        let args: Vec<Value> = vec![
            Value::Handle(mask_outline.raw),
            Value::Int(point),
        ];
        proof {
            assert(args@ =~= seq![
                Value::Handle(mask_outline.raw),
                Value::Int(point),
            ]);
        }
        Pending::new(self.guard.table_ptr(), Entry::MaskOutline(MaskOutlineEntry::GetMaskOutlineVertexInfo), args)
    }

    /// Sets the vertex information for a given index. The vertex is passed
    /// field by field, in the order of its declaration.
    pub fn set_mask_outline_vertex_info(&self, mask_outline: &MaskOutlineHandle, point: i32, vertex: &MaskVertex) -> (p: Pending<()>)
        ensures
            p.request() == (CallView::Invoke {
                table: self.guard().table(),
                entry: Entry::MaskOutline(MaskOutlineEntry::SetMaskOutlineVertexInfo),
                args: seq![
                    Value::Handle(mask_outline.raw),
                    Value::Int(point),
                    Value::Double(vertex.x),
                    Value::Double(vertex.y),
                    Value::Double(vertex.tan_in_x),
                    Value::Double(vertex.tan_in_y),
                    Value::Double(vertex.tan_out_x),
                    Value::Double(vertex.tan_out_y),
                ],
                outputs: <()>::template(),
            }),
    {
        let args: Vec<Value> = vec![
            Value::Handle(mask_outline.raw),
            Value::Int(point),
            Value::Double(vertex.x),
            Value::Double(vertex.y),
            Value::Double(vertex.tan_in_x),
            Value::Double(vertex.tan_in_y),
            Value::Double(vertex.tan_out_x),
            Value::Double(vertex.tan_out_y),
        ];
        proof {
            assert(args@ =~= seq![
                Value::Handle(mask_outline.raw),
                Value::Int(point),
                Value::Double(vertex.x),
                Value::Double(vertex.y),
                Value::Double(vertex.tan_in_x),
                Value::Double(vertex.tan_in_y),
                Value::Double(vertex.tan_out_x),
                Value::Double(vertex.tan_out_y),
            ]);
        }
        Pending::new(self.guard.table_ptr(), Entry::MaskOutline(MaskOutlineEntry::SetMaskOutlineVertexInfo), args)
    }

    /// Creates a vertex at index position.
    pub fn create_vertex(&self, mask_outline: &MaskOutlineHandle, position: i32) -> (p: Pending<()>)
        ensures
            p.request() == (CallView::Invoke {
                table: self.guard().table(),
                entry: Entry::MaskOutline(MaskOutlineEntry::CreateVertex),
                args: seq![
                    Value::Handle(mask_outline.raw),
                    Value::Int(position),
                ],
                outputs: <()>::template(),
            }),
    {
        let args: Vec<Value> = vec![
            Value::Handle(mask_outline.raw),
            Value::Int(position),
        ];
        proof {
            assert(args@ =~= seq![
                Value::Handle(mask_outline.raw),
                Value::Int(position),
            ]);
        }
        Pending::new(self.guard.table_ptr(), Entry::MaskOutline(MaskOutlineEntry::CreateVertex), args)
    }

    /// Removes a vertex from a mask.
    pub fn delete_vertex(&self, mask_outline: &MaskOutlineHandle, index: i32) -> (p: Pending<()>)
        ensures
            p.request() == (CallView::Invoke {
                table: self.guard().table(),
                entry: Entry::MaskOutline(MaskOutlineEntry::DeleteVertex),
                args: seq![
                    Value::Handle(mask_outline.raw),
                    Value::Int(index),
                ],
                outputs: <()>::template(),
            }),
    {
        let args: Vec<Value> = vec![
            Value::Handle(mask_outline.raw),
            Value::Int(index),
        ];
        proof {
            assert(args@ =~= seq![
                Value::Handle(mask_outline.raw),
                Value::Int(index),
            ]);
        }
        Pending::new(self.guard.table_ptr(), Entry::MaskOutline(MaskOutlineEntry::DeleteVertex), args)
    }

    /// Given a mask outline handle, returns the number of feathers in the path.
    pub fn mask_outline_num_feathers(&self, mask_outline: &MaskOutlineHandle) -> (p: Pending<i32>)
        ensures
            p.request() == (CallView::Invoke {
                table: self.guard().table(),
                entry: Entry::MaskOutline(MaskOutlineEntry::GetMaskOutlineNumFeathers),
                args: seq![
                    Value::Handle(mask_outline.raw),
                ],
                outputs: i32::template(),
            }),
    {
        let args: Vec<Value> = vec![
            Value::Handle(mask_outline.raw),
        ];
        proof {
            assert(args@ =~= seq![
                Value::Handle(mask_outline.raw),
            ]);
        }
        Pending::new(self.guard.table_ptr(), Entry::MaskOutline(MaskOutlineEntry::GetMaskOutlineNumFeathers), args)
    }

    /// Given a mask outline handle and a feather index, returns the feather
    /// information.
    pub fn mask_outline_feather_info(&self, mask_outline: &MaskOutlineHandle, feather_index: i32) -> (p: Pending<MaskFeather>)
        ensures
            p.request() == (CallView::Invoke {
                table: self.guard().table(),
                entry: Entry::MaskOutline(MaskOutlineEntry::GetMaskOutlineFeatherInfo),
                args: seq![
                    Value::Handle(mask_outline.raw),
                    Value::Int(feather_index),
                ],
                outputs: MaskFeather::template(),
            }),
    {
        let args: Vec<Value> = vec![
            Value::Handle(mask_outline.raw),
            Value::Int(feather_index),
        ];
        proof {
            assert(args@ =~= seq![
                Value::Handle(mask_outline.raw),
                Value::Int(feather_index),
            ]);
        }
        Pending::new(self.guard.table_ptr(), Entry::MaskOutline(MaskOutlineEntry::GetMaskOutlineFeatherInfo), args)
    }

    /// Sets the feather information for a given index. The feather must
    /// already exist; create it first, if needed. The feather is passed field
    /// by field, in the order of its declaration.
    pub fn set_mask_outline_feather_info(&self, mask_outline: &MaskOutlineHandle, feather_index: i32, feather: &MaskFeather) -> (p: Pending<()>)
        ensures
            p.request() == (CallView::Invoke {
                table: self.guard().table(),
                entry: Entry::MaskOutline(MaskOutlineEntry::SetMaskOutlineFeatherInfo),
                args: seq![
                    Value::Handle(mask_outline.raw),
                    Value::Int(feather_index),
                    Value::Int(feather.segment),
                    Value::Double(feather.segment_s),
                    Value::Double(feather.radius),
                    Value::Single(feather.ui_corner_angle),
                    Value::Single(feather.tension),
                    Value::Byte(feather.interp),
                    Value::Byte(feather.kind),
                ],
                outputs: <()>::template(),
            }),
    {
        let args: Vec<Value> = vec![
            Value::Handle(mask_outline.raw),
            Value::Int(feather_index),
            Value::Int(feather.segment),
            Value::Double(feather.segment_s),
            Value::Double(feather.radius),
            Value::Single(feather.ui_corner_angle),
            Value::Single(feather.tension),
            Value::Byte(feather.interp),
            Value::Byte(feather.kind),
        ];
        proof {
            assert(args@ =~= seq![
                Value::Handle(mask_outline.raw),
                Value::Int(feather_index),
                Value::Int(feather.segment),
                Value::Double(feather.segment_s),
                Value::Double(feather.radius),
                Value::Single(feather.ui_corner_angle),
                Value::Single(feather.tension),
                Value::Byte(feather.interp),
                Value::Byte(feather.kind),
            ]);
        }
        Pending::new(self.guard.table_ptr(), Entry::MaskOutline(MaskOutlineEntry::SetMaskOutlineFeatherInfo), args)
    }

    /// Creates a feather. Returns the index of the new feather. With a
    /// feather given, its fields follow the outline handle in the order of
    /// their declaration; with none, the outline handle is the only argument
    /// and the host is handed a null reference in the feather's place.
    pub fn create_mask_outline_feather(
        &self,
        mask_outline: &MaskOutlineHandle,
        feather: Option<MaskFeather>,
    ) -> (p: Pending<i32>)
        ensures
            p.request() == (CallView::Invoke {
                table: self.guard().table(),
                entry: Entry::MaskOutline(MaskOutlineEntry::CreateMaskOutlineFeather),
                args: match feather {
                    Some(f) => seq![
                        Value::Handle(mask_outline.raw),
                        Value::Int(f.segment),
                        Value::Double(f.segment_s),
                        Value::Double(f.radius),
                        Value::Single(f.ui_corner_angle),
                        Value::Single(f.tension),
                        Value::Byte(f.interp),
                        Value::Byte(f.kind),
                    ],
                    None => seq![Value::Handle(mask_outline.raw)],
                },
                outputs: i32::template(),
            }),
    {
        let args: Vec<Value> = match feather {
            Some(f) => {
                let with_feather: Vec<Value> = vec![
                    Value::Handle(mask_outline.raw),
                    Value::Int(f.segment),
                    Value::Double(f.segment_s),
                    Value::Double(f.radius),
                    Value::Single(f.ui_corner_angle),
                    Value::Single(f.tension),
                    Value::Byte(f.interp),
                    Value::Byte(f.kind),
                ];
                proof {
                    assert(with_feather@ =~= seq![
                        Value::Handle(mask_outline.raw),
                        Value::Int(f.segment),
                        Value::Double(f.segment_s),
                        Value::Double(f.radius),
                        Value::Single(f.ui_corner_angle),
                        Value::Single(f.tension),
                        Value::Byte(f.interp),
                        Value::Byte(f.kind),
                    ]);
                }
                with_feather
            },
            None => {
                let without: Vec<Value> = vec![Value::Handle(mask_outline.raw)];
                proof {
                    assert(without@ =~= seq![Value::Handle(mask_outline.raw)]);
                }
                without
            },
        };
        Pending::new(
            self.guard.table_ptr(),
            Entry::MaskOutline(MaskOutlineEntry::CreateMaskOutlineFeather),
            args,
        )
    }

    /// Deletes a feather from the mask.
    pub fn delete_mask_outline_feather(&self, mask_outline: &MaskOutlineHandle, index: i32) -> (p: Pending<()>)
        ensures
            p.request() == (CallView::Invoke {
                table: self.guard().table(),
                entry: Entry::MaskOutline(MaskOutlineEntry::DeleteMaskOutlineFeather),
                args: seq![
                    Value::Handle(mask_outline.raw),
                    Value::Int(index),
                ],
                outputs: <()>::template(),
            }),
    {
        let args: Vec<Value> = vec![
            Value::Handle(mask_outline.raw),
            Value::Int(index),
        ];
        proof {
            assert(args@ =~= seq![
                Value::Handle(mask_outline.raw),
                Value::Int(index),
            ]);
        }
        Pending::new(self.guard.table_ptr(), Entry::MaskOutline(MaskOutlineEntry::DeleteMaskOutlineFeather), args)
    }
}

/// A borrowed handle to the outline of a mask.
#[derive(Clone, Copy, Debug, PartialEq, Eq, Structural, Hash)]
pub struct MaskOutlineHandle {
    pub raw: usize,
}

impl MaskOutlineHandle {
    /// Wraps the raw value that the host issued.
    pub fn from_raw(raw: usize) -> (h: Self)
        ensures
            h.raw == raw,
    {
        MaskOutlineHandle { raw }
    }

    /// The raw value, as the host takes it.
    pub fn as_ptr(&self) -> (raw: usize)
        ensures
            raw == self.raw,
    {
        self.raw
    }
}

/// A handle to a mask. A handle that the host returned from a call of the
/// mask table is owned: giving it up disposes of the mask through that table.
/// A handle wrapped from a raw value that some other owner holds is borrowed:
/// giving it up calls nothing.
#[derive(Debug, PartialEq, Eq, Hash)]
pub struct MaskRefHandle {
    /// The raw value, as the host takes it.
    pub raw: usize,
    /// Whether giving the handle up disposes of the mask.
    pub owned: bool,
}

impl MaskRefHandle {
    /// Wraps a raw value that some other owner disposes of.
    pub fn from_raw(raw: usize) -> (h: Self)
        ensures
            h.raw == raw,
            !h.owned,
    {
        MaskRefHandle { raw, owned: false }
    }

    /// Wraps a raw value that the host has just returned, as its owner.
    pub fn from_raw_owned(raw: usize) -> (h: Self)
        ensures
            h.raw == raw,
            h.owned,
    {
        MaskRefHandle { raw, owned: true }
    }

    /// Whether giving the handle up disposes of the mask.
    pub fn is_owned(&self) -> (b: bool)
        ensures
            b == self.owned,
    {
        self.owned
    }

    /// The raw value, as the host takes it.
    pub fn as_ptr(&self) -> (raw: usize)
        ensures
            raw == self.raw,
    {
        self.raw
    }

    /// The call that disposes of the mask with the raw value `raw` through
    /// the mask table at `table`.
    pub open spec fn disposal(table: usize, raw: usize) -> CallView {
        CallView::Invoke {
            table,
            entry: Entry::Mask(MaskEntry::DisposeMask),
            args: seq![Value::Handle(raw)],
            outputs: Seq::<Value>::empty(),
        }
    }

    /// The calls that giving the handle up makes through the mask table at
    /// `table`: one disposal for an owned handle, none for a borrowed one.
    pub open spec fn given_up(self, table: usize) -> Seq<CallView> {
        if self.owned {
            seq![Self::disposal(table, self.raw)]
        } else {
            Seq::<CallView>::empty()
        }
    }

    /// Gives the handle up. For a borrowed handle there is nothing to do and
    /// the result is `None`. For an owned handle the result is the one call
    /// that disposes of the mask, through the table of the suite at hand.
    /// A failure of that call cannot be recovered from: it is concluded with
    /// [`Pending::conclude`], which asks for success.
    pub fn dispose(self, suite: &MaskSuite) -> (p: Option<Pending<()>>)
        ensures
            p is Some <==> self.owned,
            p matches Some(q) ==> q.request() == (CallView::Invoke {
                table: suite.guard().table(),
                entry: Entry::Mask(MaskEntry::DisposeMask),
                args: seq![Value::Handle(self.raw)],
                outputs: Seq::<Value>::empty(),
            }),
    {
        if self.owned {
            let mut handle = self;
            Some(suite.dispose_mask(&mut handle))
        } else {
            None
        }
    }
}

impl Decode for MaskRefHandle {
    open spec fn template() -> Seq<Value> {
        handle_template()
    }

    open spec fn readable(slots: Seq<Value>) -> bool {
        slots[0] is Handle
    }

    open spec fn read(slots: Seq<Value>) -> Self {
        MaskRefHandle { raw: slots[0]->Handle_0, owned: true }
    }

    proof fn template_zeroed() {
    }

    fn width() -> (n: usize) {
        1
    }

    fn offer(out: &mut Vec<Value>) {
        offer_handle(out);
    }

    fn decode(slots: &Vec<Value>, at: usize) -> (r: Option<Self>) {
        match decode_handle(slots, at) {
            Some(raw) => Some(MaskRefHandle { raw, owned: true }),
            None => None,
        }
    }
}

/// How a mask combines with the masks above it.
#[derive(Clone, Copy, Debug, PartialEq, Eq, Structural, Hash)]
pub enum MaskMode {
    /// The mask does nothing.
    NoMode,
    /// The default behavior.
    Add,
    Subtract,
    Intersect,
    Lighten,
    Darken,
    Difference,
    Accum,
}

impl MaskMode {
    /// The host's code for a variant.
    pub open spec fn raw_of(self) -> i32 {
        match self {
            MaskMode::NoMode => 0,
            MaskMode::Add => 1,
            MaskMode::Subtract => 2,
            MaskMode::Intersect => 3,
            MaskMode::Lighten => 4,
            MaskMode::Darken => 5,
            MaskMode::Difference => 6,
            MaskMode::Accum => 7,
        }
    }

    /// The variant that a code of the host stands for, if it stands for one.
    pub open spec fn of_raw(raw: i32) -> Option<MaskMode> {
        if raw == 0 {
            Some(MaskMode::NoMode)
        } else if raw == 1 {
            Some(MaskMode::Add)
        } else if raw == 2 {
            Some(MaskMode::Subtract)
        } else if raw == 3 {
            Some(MaskMode::Intersect)
        } else if raw == 4 {
            Some(MaskMode::Lighten)
        } else if raw == 5 {
            Some(MaskMode::Darken)
        } else if raw == 6 {
            Some(MaskMode::Difference)
        } else if raw == 7 {
            Some(MaskMode::Accum)
        } else {
            None
        }
    }

    /// The host's code for this variant.
    pub fn to_raw(self) -> (raw: i32)
        ensures
            raw == self.raw_of(),
            MaskMode::of_raw(raw) == Some(self),
    {
        match self {
            MaskMode::NoMode => 0,
            MaskMode::Add => 1,
            MaskMode::Subtract => 2,
            MaskMode::Intersect => 3,
            MaskMode::Lighten => 4,
            MaskMode::Darken => 5,
            MaskMode::Difference => 6,
            MaskMode::Accum => 7,
        }
    }

    /// The variant that a code of the host stands for. A code outside the
    /// published set stands for none and is never mapped to a default.
    pub fn from_raw(raw: i32) -> (v: Option<MaskMode>)
        ensures
            v == MaskMode::of_raw(raw),
            v matches Some(known) ==> known.raw_of() == raw,
    {
        if raw == 0 {
            Some(MaskMode::NoMode)
        } else if raw == 1 {
            Some(MaskMode::Add)
        } else if raw == 2 {
            Some(MaskMode::Subtract)
        } else if raw == 3 {
            Some(MaskMode::Intersect)
        } else if raw == 4 {
            Some(MaskMode::Lighten)
        } else if raw == 5 {
            Some(MaskMode::Darken)
        } else if raw == 6 {
            Some(MaskMode::Difference)
        } else if raw == 7 {
            Some(MaskMode::Accum)
        } else {
            None
        }
    }
}

impl Decode for MaskMode {
    open spec fn template() -> Seq<Value> {
        seq![Value::Int(0)]
    }

    open spec fn readable(slots: Seq<Value>) -> bool {
        slots[0] is Int && MaskMode::of_raw(slots[0]->Int_0) is Some
    }

    open spec fn read(slots: Seq<Value>) -> Self {
        MaskMode::of_raw(slots[0]->Int_0)->Some_0
    }

    proof fn template_zeroed() {
    }

    fn width() -> (n: usize) {
        1
    }

    fn offer(out: &mut Vec<Value>) {
        out.push(Value::Int(0));
        proof {
            assert(out@ =~= old(out)@ + Self::template());
        }
    }

    fn decode(slots: &Vec<Value>, at: usize) -> (r: Option<Self>) {
        match slots[at] {
            Value::Int(raw) => MaskMode::from_raw(raw),
            _ => None,
        }
    }
}

/// Every variant of [`MaskMode`] has a code of its own, and the code leads back
/// to the variant.
pub proof fn lemma_mask_mode_round_trip(v: MaskMode, raw: i32)
    ensures
        MaskMode::of_raw(v.raw_of()) == Some(v),
        MaskMode::of_raw(raw) matches Some(w) ==> w.raw_of() == raw,
{
}
/// The motion blur setting of a mask.
#[derive(Clone, Copy, Debug, PartialEq, Eq, Structural, Hash)]
pub enum MaskMBlur {
    SameAsLayer,
    Off,
    On,
}

impl MaskMBlur {
    /// The host's code for a variant.
    pub open spec fn raw_of(self) -> u8 {
        match self {
            MaskMBlur::SameAsLayer => 0,
            MaskMBlur::Off => 1,
            MaskMBlur::On => 2,
        }
    }

    /// The variant that a code of the host stands for, if it stands for one.
    pub open spec fn of_raw(raw: u8) -> Option<MaskMBlur> {
        if raw == 0 {
            Some(MaskMBlur::SameAsLayer)
        } else if raw == 1 {
            Some(MaskMBlur::Off)
        } else if raw == 2 {
            Some(MaskMBlur::On)
        } else {
            None
        }
    }

    /// The host's code for this variant.
    pub fn to_raw(self) -> (raw: u8)
        ensures
            raw == self.raw_of(),
            MaskMBlur::of_raw(raw) == Some(self),
    {
        match self {
            MaskMBlur::SameAsLayer => 0,
            MaskMBlur::Off => 1,
            MaskMBlur::On => 2,
        }
    }

    /// The variant that a code of the host stands for. A code outside the
    /// published set stands for none and is never mapped to a default.
    pub fn from_raw(raw: u8) -> (v: Option<MaskMBlur>)
        ensures
            v == MaskMBlur::of_raw(raw),
            v matches Some(known) ==> known.raw_of() == raw,
    {
        if raw == 0 {
            Some(MaskMBlur::SameAsLayer)
        } else if raw == 1 {
            Some(MaskMBlur::Off)
        } else if raw == 2 {
            Some(MaskMBlur::On)
        } else {
            None
        }
    }
}

impl Decode for MaskMBlur {
    open spec fn template() -> Seq<Value> {
        seq![Value::Byte(0)]
    }

    open spec fn readable(slots: Seq<Value>) -> bool {
        slots[0] is Byte && MaskMBlur::of_raw(slots[0]->Byte_0) is Some
    }

    open spec fn read(slots: Seq<Value>) -> Self {
        MaskMBlur::of_raw(slots[0]->Byte_0)->Some_0
    }

    proof fn template_zeroed() {
    }

    fn width() -> (n: usize) {
        1
    }

    fn offer(out: &mut Vec<Value>) {
        out.push(Value::Byte(0));
        proof {
            assert(out@ =~= old(out)@ + Self::template());
        }
    }

    fn decode(slots: &Vec<Value>, at: usize) -> (r: Option<Self>) {
        match slots[at] {
            Value::Byte(raw) => MaskMBlur::from_raw(raw),
            _ => None,
        }
    }
}

/// Every variant of [`MaskMBlur`] has a code of its own, and the code leads back
/// to the variant.
pub proof fn lemma_mask_m_blur_round_trip(v: MaskMBlur, raw: u8)
    ensures
        MaskMBlur::of_raw(v.raw_of()) == Some(v),
        MaskMBlur::of_raw(raw) matches Some(w) ==> w.raw_of() == raw,
{
}
/// The falloff of a mask's feather.
#[derive(Clone, Copy, Debug, PartialEq, Eq, Structural, Hash)]
pub enum MaskFeatherFalloff {
    Smooth,
    Linear,
}

impl MaskFeatherFalloff {
    /// The host's code for a variant.
    pub open spec fn raw_of(self) -> u8 {
        match self {
            MaskFeatherFalloff::Smooth => 0,
            MaskFeatherFalloff::Linear => 1,
        }
    }

    /// The variant that a code of the host stands for, if it stands for one.
    pub open spec fn of_raw(raw: u8) -> Option<MaskFeatherFalloff> {
        if raw == 0 {
            Some(MaskFeatherFalloff::Smooth)
        } else if raw == 1 {
            Some(MaskFeatherFalloff::Linear)
        } else {
            None
        }
    }

    /// The host's code for this variant.
    pub fn to_raw(self) -> (raw: u8)
        ensures
            raw == self.raw_of(),
            MaskFeatherFalloff::of_raw(raw) == Some(self),
    {
        match self {
            MaskFeatherFalloff::Smooth => 0,
            MaskFeatherFalloff::Linear => 1,
        }
    }

    /// The variant that a code of the host stands for. A code outside the
    /// published set stands for none and is never mapped to a default.
    pub fn from_raw(raw: u8) -> (v: Option<MaskFeatherFalloff>)
        ensures
            v == MaskFeatherFalloff::of_raw(raw),
            v matches Some(known) ==> known.raw_of() == raw,
    {
        if raw == 0 {
            Some(MaskFeatherFalloff::Smooth)
        } else if raw == 1 {
            Some(MaskFeatherFalloff::Linear)
        } else {
            None
        }
    }
}

impl Decode for MaskFeatherFalloff {
    open spec fn template() -> Seq<Value> {
        seq![Value::Byte(0)]
    }

    open spec fn readable(slots: Seq<Value>) -> bool {
        slots[0] is Byte && MaskFeatherFalloff::of_raw(slots[0]->Byte_0) is Some
    }

    open spec fn read(slots: Seq<Value>) -> Self {
        MaskFeatherFalloff::of_raw(slots[0]->Byte_0)->Some_0
    }

    proof fn template_zeroed() {
    }

    fn width() -> (n: usize) {
        1
    }

    fn offer(out: &mut Vec<Value>) {
        out.push(Value::Byte(0));
        proof {
            assert(out@ =~= old(out)@ + Self::template());
        }
    }

    fn decode(slots: &Vec<Value>, at: usize) -> (r: Option<Self>) {
        match slots[at] {
            Value::Byte(raw) => MaskFeatherFalloff::from_raw(raw),
            _ => None,
        }
    }
}

/// Every variant of [`MaskFeatherFalloff`] has a code of its own, and the code leads back
/// to the variant.
pub proof fn lemma_mask_feather_falloff_round_trip(v: MaskFeatherFalloff, raw: u8)
    ensures
        MaskFeatherFalloff::of_raw(v.raw_of()) == Some(v),
        MaskFeatherFalloff::of_raw(raw) matches Some(w) ==> w.raw_of() == raw,
{
}
/// How a feather is interpolated along the outline.
#[derive(Clone, Copy, Debug, PartialEq, Eq, Structural, Hash)]
pub enum MaskFeatherInterp {
    Normal,
    HoldCW,
}

impl MaskFeatherInterp {
    /// The host's code for a variant.
    pub open spec fn raw_of(self) -> u8 {
        match self {
            MaskFeatherInterp::Normal => 0,
            MaskFeatherInterp::HoldCW => 1,
        }
    }

    /// The variant that a code of the host stands for, if it stands for one.
    pub open spec fn of_raw(raw: u8) -> Option<MaskFeatherInterp> {
        if raw == 0 {
            Some(MaskFeatherInterp::Normal)
        } else if raw == 1 {
            Some(MaskFeatherInterp::HoldCW)
        } else {
            None
        }
    }

    /// The host's code for this variant.
    pub fn to_raw(self) -> (raw: u8)
        ensures
            raw == self.raw_of(),
            MaskFeatherInterp::of_raw(raw) == Some(self),
    {
        match self {
            MaskFeatherInterp::Normal => 0,
            MaskFeatherInterp::HoldCW => 1,
        }
    }

    /// The variant that a code of the host stands for. A code outside the
    /// published set stands for none and is never mapped to a default.
    pub fn from_raw(raw: u8) -> (v: Option<MaskFeatherInterp>)
        ensures
            v == MaskFeatherInterp::of_raw(raw),
            v matches Some(known) ==> known.raw_of() == raw,
    {
        if raw == 0 {
            Some(MaskFeatherInterp::Normal)
        } else if raw == 1 {
            Some(MaskFeatherInterp::HoldCW)
        } else {
            None
        }
    }
}

impl Decode for MaskFeatherInterp {
    open spec fn template() -> Seq<Value> {
        seq![Value::Byte(0)]
    }

    open spec fn readable(slots: Seq<Value>) -> bool {
        slots[0] is Byte && MaskFeatherInterp::of_raw(slots[0]->Byte_0) is Some
    }

    open spec fn read(slots: Seq<Value>) -> Self {
        MaskFeatherInterp::of_raw(slots[0]->Byte_0)->Some_0
    }

    proof fn template_zeroed() {
    }

    fn width() -> (n: usize) {
        1
    }

    fn offer(out: &mut Vec<Value>) {
        out.push(Value::Byte(0));
        proof {
            assert(out@ =~= old(out)@ + Self::template());
        }
    }

    fn decode(slots: &Vec<Value>, at: usize) -> (r: Option<Self>) {
        match slots[at] {
            Value::Byte(raw) => MaskFeatherInterp::from_raw(raw),
            _ => None,
        }
    }
}

/// Every variant of [`MaskFeatherInterp`] has a code of its own, and the code leads back
/// to the variant.
pub proof fn lemma_mask_feather_interp_round_trip(v: MaskFeatherInterp, raw: u8)
    ensures
        MaskFeatherInterp::of_raw(v.raw_of()) == Some(v),
        MaskFeatherInterp::of_raw(raw) matches Some(w) ==> w.raw_of() == raw,
{
}
/// On which side of the outline a feather lies.
#[derive(Clone, Copy, Debug, PartialEq, Eq, Structural, Hash)]
pub enum MaskFeatherType {
    Outer,
    Inner,
}

impl MaskFeatherType {
    /// The host's code for a variant.
    pub open spec fn raw_of(self) -> u8 {
        match self {
            MaskFeatherType::Outer => 0,
            MaskFeatherType::Inner => 1,
        }
    }

    /// The variant that a code of the host stands for, if it stands for one.
    pub open spec fn of_raw(raw: u8) -> Option<MaskFeatherType> {
        if raw == 0 {
            Some(MaskFeatherType::Outer)
        } else if raw == 1 {
            Some(MaskFeatherType::Inner)
        } else {
            None
        }
    }

    /// The host's code for this variant.
    pub fn to_raw(self) -> (raw: u8)
        ensures
            raw == self.raw_of(),
            MaskFeatherType::of_raw(raw) == Some(self),
    {
        match self {
            MaskFeatherType::Outer => 0,
            MaskFeatherType::Inner => 1,
        }
    }

    /// The variant that a code of the host stands for. A code outside the
    /// published set stands for none and is never mapped to a default.
    pub fn from_raw(raw: u8) -> (v: Option<MaskFeatherType>)
        ensures
            v == MaskFeatherType::of_raw(raw),
            v matches Some(known) ==> known.raw_of() == raw,
    {
        if raw == 0 {
            Some(MaskFeatherType::Outer)
        } else if raw == 1 {
            Some(MaskFeatherType::Inner)
        } else {
            None
        }
    }
}

impl Decode for MaskFeatherType {
    open spec fn template() -> Seq<Value> {
        seq![Value::Byte(0)]
    }

    open spec fn readable(slots: Seq<Value>) -> bool {
        slots[0] is Byte && MaskFeatherType::of_raw(slots[0]->Byte_0) is Some
    }

    open spec fn read(slots: Seq<Value>) -> Self {
        MaskFeatherType::of_raw(slots[0]->Byte_0)->Some_0
    }

    proof fn template_zeroed() {
    }

    fn width() -> (n: usize) {
        1
    }

    fn offer(out: &mut Vec<Value>) {
        out.push(Value::Byte(0));
        proof {
            assert(out@ =~= old(out)@ + Self::template());
        }
    }

    fn decode(slots: &Vec<Value>, at: usize) -> (r: Option<Self>) {
        match slots[at] {
            Value::Byte(raw) => MaskFeatherType::from_raw(raw),
            _ => None,
        }
    }
}

/// Every variant of [`MaskFeatherType`] has a code of its own, and the code leads back
/// to the variant.
pub proof fn lemma_mask_feather_type_round_trip(v: MaskFeatherType, raw: u8)
    ensures
        MaskFeatherType::of_raw(v.raw_of()) == Some(v),
        MaskFeatherType::of_raw(raw) matches Some(w) ==> w.raw_of() == raw,
{
}
/// A vertex of a mask outline. Every field is the bit pattern of a 64-bit
/// floating-point number.
#[derive(Clone, Copy, Debug, PartialEq, Eq, Structural, Hash)]
pub struct MaskVertex {
    /// Horizontal position.
    pub x: u64,
    /// Vertical position.
    pub y: u64,
    /// Horizontal part of the incoming tangent.
    pub tan_in_x: u64,
    /// Vertical part of the incoming tangent.
    pub tan_in_y: u64,
    /// Horizontal part of the outgoing tangent.
    pub tan_out_x: u64,
    /// Vertical part of the outgoing tangent.
    pub tan_out_y: u64,
}

impl Decode for MaskVertex {
    open spec fn template() -> Seq<Value> {
        seq![
            Value::Double(0),
            Value::Double(0),
            Value::Double(0),
            Value::Double(0),
            Value::Double(0),
            Value::Double(0),
        ]
    }

    open spec fn readable(slots: Seq<Value>) -> bool {
        &&& slots[0] is Double
        &&& slots[1] is Double
        &&& slots[2] is Double
        &&& slots[3] is Double
        &&& slots[4] is Double
        &&& slots[5] is Double
    }

    open spec fn read(slots: Seq<Value>) -> Self {
        MaskVertex {
            x: slots[0]->Double_0,
            y: slots[1]->Double_0,
            tan_in_x: slots[2]->Double_0,
            tan_in_y: slots[3]->Double_0,
            tan_out_x: slots[4]->Double_0,
            tan_out_y: slots[5]->Double_0,
        }
    }

    proof fn template_zeroed() {
    }

    fn width() -> (n: usize) {
        6
    }

    fn offer(out: &mut Vec<Value>) {
        out.push(Value::Double(0));
        out.push(Value::Double(0));
        out.push(Value::Double(0));
        out.push(Value::Double(0));
        out.push(Value::Double(0));
        out.push(Value::Double(0));
        proof {
            assert(out@ =~= old(out)@ + Self::template());
        }
    }

    fn decode(slots: &Vec<Value>, at: usize) -> (r: Option<Self>) {
        let len: usize = slots.len();
        proof {
            assert(Self::template().len() == 6);
        }
        let x: u64 = match slots[at] {
            Value::Double(v) => v,
            _ => {
                return None;
            },
        };
        let y: u64 = match slots[at + 1] {
            Value::Double(v) => v,
            _ => {
                return None;
            },
        };
        let tan_in_x: u64 = match slots[at + 2] {
            Value::Double(v) => v,
            _ => {
                return None;
            },
        };
        let tan_in_y: u64 = match slots[at + 3] {
            Value::Double(v) => v,
            _ => {
                return None;
            },
        };
        let tan_out_x: u64 = match slots[at + 4] {
            Value::Double(v) => v,
            _ => {
                return None;
            },
        };
        let tan_out_y: u64 = match slots[at + 5] {
            Value::Double(v) => v,
            _ => {
                return None;
            },
        };
        Some(MaskVertex { x, y, tan_in_x, tan_in_y, tan_out_x, tan_out_y })
    }
}

/// A feather of a mask outline. Floating-point fields hold bit patterns.
#[derive(Clone, Copy, Debug, PartialEq, Eq, Structural, Hash)]
pub struct MaskFeather {
    /// The mask segment where the feather is.
    pub segment: i32,
    /// The feather's location on the segment, from 0 to 1 (64-bit float).
    pub segment_s: u64,
    /// The radius; negative only for an inner feather (64-bit float).
    pub radius: u64,
    /// The angle of the handle on corners, from 0 to 1 (32-bit float).
    pub ui_corner_angle: u32,
    /// The tension of the boundary at the feather, from 0 to 1 (32-bit float).
    pub tension: u32,
    /// The code of a [`MaskFeatherInterp`].
    pub interp: u8,
    /// The code of a [`MaskFeatherType`].
    pub kind: u8,
}

impl Decode for MaskFeather {
    open spec fn template() -> Seq<Value> {
        seq![
            Value::Int(0),
            Value::Double(0),
            Value::Double(0),
            Value::Single(0),
            Value::Single(0),
            Value::Byte(0),
            Value::Byte(0),
        ]
    }

    open spec fn readable(slots: Seq<Value>) -> bool {
        &&& slots[0] is Int
        &&& slots[1] is Double
        &&& slots[2] is Double
        &&& slots[3] is Single
        &&& slots[4] is Single
        &&& slots[5] is Byte
        &&& slots[6] is Byte
    }

    open spec fn read(slots: Seq<Value>) -> Self {
        MaskFeather {
            segment: slots[0]->Int_0,
            segment_s: slots[1]->Double_0,
            radius: slots[2]->Double_0,
            ui_corner_angle: slots[3]->Single_0,
            tension: slots[4]->Single_0,
            interp: slots[5]->Byte_0,
            kind: slots[6]->Byte_0,
        }
    }

    proof fn template_zeroed() {
    }

    fn width() -> (n: usize) {
        7
    }

    fn offer(out: &mut Vec<Value>) {
        out.push(Value::Int(0));
        out.push(Value::Double(0));
        out.push(Value::Double(0));
        out.push(Value::Single(0));
        out.push(Value::Single(0));
        out.push(Value::Byte(0));
        out.push(Value::Byte(0));
        proof {
            assert(out@ =~= old(out)@ + Self::template());
        }
    }

    fn decode(slots: &Vec<Value>, at: usize) -> (r: Option<Self>) {
        let len: usize = slots.len();
        proof {
            assert(Self::template().len() == 7);
        }
        let segment: i32 = match slots[at] {
            Value::Int(v) => v,
            _ => {
                return None;
            },
        };
        let segment_s: u64 = match slots[at + 1] {
            Value::Double(v) => v,
            _ => {
                return None;
            },
        };
        let radius: u64 = match slots[at + 2] {
            Value::Double(v) => v,
            _ => {
                return None;
            },
        };
        let ui_corner_angle: u32 = match slots[at + 3] {
            Value::Single(v) => v,
            _ => {
                return None;
            },
        };
        let tension: u32 = match slots[at + 4] {
            Value::Single(v) => v,
            _ => {
                return None;
            },
        };
        let interp: u8 = match slots[at + 5] {
            Value::Byte(v) => v,
            _ => {
                return None;
            },
        };
        let kind: u8 = match slots[at + 6] {
            Value::Byte(v) => v,
            _ => {
                return None;
            },
        };
        Some(MaskFeather { segment, segment_s, radius, ui_corner_angle, tension, interp, kind })
    }
}

/// How many calls of a list dispose of the mask with the raw value `raw`
/// through the mask table at `table`.
pub open spec fn disposals_of(calls: Seq<CallView>, table: usize, raw: usize) -> nat
    decreases calls.len(),
{
    if calls.len() == 0 {
        0
    } else {
        disposals_of(calls.drop_last(), table, raw) + if calls.last() == MaskRefHandle::disposal(
            table,
            raw,
        ) {
            1nat
        } else {
            0nat
        }
    }
}

/// An owned handle that is given up right after it was made is disposed of
/// in exactly one call, which carries the exact raw value that the handle
/// was made from. A borrowed handle is given up without any call. A handle
/// that was disposed of through the suite is no longer owned, so that over
/// its whole life, the disposal and the giving up together, there is still
/// exactly one disposal call.
pub proof fn lemma_owned_handle_disposed_once(table: usize, raw: usize)
    ensures
        (MaskRefHandle { raw, owned: true }).given_up(table) == seq![
            MaskRefHandle::disposal(table, raw),
        ],
        disposals_of((MaskRefHandle { raw, owned: true }).given_up(table), table, raw) == 1,
        (MaskRefHandle { raw, owned: false }).given_up(table) == Seq::<CallView>::empty(),
        disposals_of(
            seq![MaskRefHandle::disposal(table, raw)] + (MaskRefHandle {
                raw,
                owned: false,
            }).given_up(table),
            table,
            raw,
        ) == 1,
{
    let one = seq![MaskRefHandle::disposal(table, raw)];
    assert(one.drop_last() =~= Seq::<CallView>::empty());
    assert(one.last() == MaskRefHandle::disposal(table, raw));
    assert(disposals_of(one.drop_last(), table, raw) == 0);
    assert(one + Seq::<CallView>::empty() =~= one);
}

} // verus!
