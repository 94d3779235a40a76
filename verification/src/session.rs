//! The interop session: the fixed call order that parents a hosted UI
//! surface under an owning native window, and the decisions the owning
//! window's event loop takes afterwards.
//!
//! Initialization precedes activation, activation precedes attachment,
//! and attachment precedes window-handle retrieval; every failure path
//! gives back each reference it acquired.  The enclosing event loop is an
//! external collaborator: it hands events in and performs the returned
//! actions.

use vstd::prelude::*;

use crate::runtime::{ro_initialize, Handle, HostRuntime, RoInitType};
use crate::status::{ComError, CLASS_E_CLASSNOTAVAILABLE, E_INVALIDARG, E_NOINTERFACE};
use crate::iid::{spec_iid_desktop_window_xaml_source_native, InterfaceId};
use crate::xaml_source::{surface_window_for, IDesktopWindowXamlSourceNative};

verus! {

/// Flag passed to the native window-positioning call to show the window.
pub const SWP_SHOWWINDOW: u32 = 0x40;

/// One event the owning window's loop hands to the session.
#[derive(Clone, Copy, PartialEq, Eq, Structural, Debug)]
pub enum LoopEvent {
    /// The window with this identifier was asked to close.
    CloseRequested { window: u64 },
    /// The window with this identifier was resized to the given extent.
    Resized { window: u64, width: u32, height: u32 },
    /// Anything else.
    Other,
}

/// What the loop must do in response to an event.
#[derive(Clone, Copy, PartialEq, Eq, Structural, Debug)]
pub enum LoopAction {
    /// Leave the loop.
    Exit,
    /// Position the window with identifier `window` at the given
    /// rectangle with the given flags.
    Reposition { window: u64, x: i32, y: i32, width: i32, height: i32, flags: u32 },
    /// Wait for the next event.
    Wait,
}

/// A window extent as the positioning call takes it: clamped into the
/// non-negative signed range.
pub open spec fn spec_clamp_extent(v: u32) -> i32 {
    if v > 0x7FFF_FFFF {
        0x7FFF_FFFF
    } else {
        v as i32
    }
}

/// The decision the loop takes for one event: a close request on the
/// owning window ends the loop; a resize of the owning window repositions
/// the surface's window to fill the new client area and keeps it shown;
/// everything else waits.  Events for other windows are ignored.
pub open spec fn spec_handle_event(owner_window: u64, surface_window: u64, ev: LoopEvent) -> LoopAction {
    match ev {
        LoopEvent::CloseRequested { window } => {
            if window == owner_window {
                LoopAction::Exit
            } else {
                LoopAction::Wait
            }
        },
        LoopEvent::Resized { window, width, height } => {
            if window == owner_window {
                LoopAction::Reposition {
                    window: surface_window,
                    x: 0,
                    y: 0,
                    width: spec_clamp_extent(width),
                    height: spec_clamp_extent(height),
                    flags: SWP_SHOWWINDOW,
                }
            } else {
                LoopAction::Wait
            }
        },
        LoopEvent::Other => LoopAction::Wait,
    }
}

fn clamp_extent(v: u32) -> (r: i32)
    ensures
        r == spec_clamp_extent(v),
{
    if v > 0x7FFF_FFFF {
        0x7FFF_FFFF
    } else {
        v as i32
    }
}

/// Decides what the owning window's event loop does with one event, once
/// the surface is attached and its window is known.
pub fn handle_event(owner_window: u64, surface_window: u64, ev: &LoopEvent) -> (a: LoopAction)
    ensures
        a == spec_handle_event(owner_window, surface_window, *ev),
{
    match ev {
        LoopEvent::CloseRequested { window } => {
            if *window == owner_window {
                LoopAction::Exit
            } else {
                LoopAction::Wait
            }
        },
        LoopEvent::Resized { window, width, height } => {
            if *window == owner_window {
                LoopAction::Reposition {
                    window: surface_window,
                    x: 0,
                    y: 0,
                    width: clamp_extent(*width),
                    height: clamp_extent(*height),
                    flags: SWP_SHOWWINDOW,
                }
            } else {
                LoopAction::Wait
            }
        },
        LoopEvent::Other => LoopAction::Wait,
    }
}

/// Everything a successful attachment hands back: the hosting manager,
/// the surface, the typed windowing-attachment handle, and the native
/// window the surface created for itself.
#[derive(Debug)]
pub struct AttachedIsland {
    pub manager: Handle,
    pub source: Handle,
    pub interop: IDesktopWindowXamlSourceNative,
    pub surface_window: u64,
}

/// The whole attachment sequence in program order: initialize the
/// runtime, activate the hosting manager, activate the surface, cast it
/// to the windowing-attachment interface, parent it under `hwnd`, and
/// retrieve the surface's own native window.
///
/// Success is owed exactly when both classes are registered, the surface
/// class implements the windowing-attachment interface, and the native
/// window identifier is not null; each failure is the first step's error.
/// On failure every reference acquired on the way is given back: objects
/// that existed before keep their counts, and objects created on the way
/// are destroyed again.
pub fn attach_xaml_island(
    rt: &mut HostRuntime,
    manager_class: u64,
    source_class: u64,
    hwnd: u64,
) -> (r: Result<AttachedIsland, ComError>)
    requires
        old(rt).wf(),
        old(rt).objects@.len() < 0xFFFF_FFFF_FFFF_FFF0,
    ensures
        final(rt).wf(),
        final(rt).initialized,
        final(rt).classes == old(rt).classes,
        old(rt).objects@.len() <= final(rt).objects@.len() <= old(rt).objects@.len() + 2,
        !old(rt).valid_class_id(manager_class) ==> r == Err::<AttachedIsland, ComError>(
            ComError::Status(CLASS_E_CLASSNOTAVAILABLE),
        ),
        old(rt).valid_class_id(manager_class) && !old(rt).valid_class_id(source_class) ==> r
            == Err::<AttachedIsland, ComError>(ComError::Status(CLASS_E_CLASSNOTAVAILABLE)),
        old(rt).valid_class_id(manager_class) && old(rt).valid_class_id(source_class)
            && !spec_source_class_attachable(*old(rt), source_class) ==> r == Err::<
            AttachedIsland,
            ComError,
        >(ComError::Status(E_NOINTERFACE)),
        old(rt).valid_class_id(manager_class) && old(rt).valid_class_id(source_class)
            && spec_source_class_attachable(*old(rt), source_class) && hwnd == 0 ==> r == Err::<
            AttachedIsland,
            ComError,
        >(ComError::Status(E_INVALIDARG)),
        old(rt).valid_class_id(manager_class) && old(rt).valid_class_id(source_class)
            && spec_source_class_attachable(*old(rt), source_class) && hwnd != 0 ==> {
            &&& r is Ok
            &&& r->Ok_0.surface_window == surface_window_for(hwnd)
            &&& r->Ok_0.surface_window != 0
            &&& r->Ok_0.surface_window != hwnd
            &&& r->Ok_0.interop.handle.obj == r->Ok_0.source.obj
            &&& final(rt).live_handle(r->Ok_0.manager)
            &&& final(rt).live_handle(r->Ok_0.source)
            &&& r->Ok_0.interop.wf(*final(rt))
            &&& final(rt).object_of(r->Ok_0.source.obj).attached_window == hwnd
            &&& final(rt).object_of(r->Ok_0.source.obj).surface_window == surface_window_for(
                hwnd,
            )
        },
        r is Err ==> {
            &&& forall|i: int|
                0 <= i < old(rt).objects@.len() ==> final(rt).objects@[i].ref_count
                    == old(rt).objects@[i].ref_count
            &&& forall|i: int|
                old(rt).objects@.len() <= i < final(rt).objects@.len()
                    ==> final(rt).objects@[i].destroyed
        },
{
    let init = ro_initialize(rt, RoInitType::MultiThreaded);
    if let Err(e) = init {
        return Err(e);
    }
    let mut manager = match rt.activate_instance(manager_class) {
        Ok(h) => h,
        Err(e) => {
            return Err(e);
        },
    };
    let mut source = match rt.activate_instance(source_class) {
        Ok(h) => h,
        Err(e) => {
            rt.release(&mut manager);
            return Err(e);
        },
    };
    let ghost s2 = *rt;
    proof {
        assert(s2.object_of(source.obj).iids@ =~= old(rt).class_of(source_class).iids@);
        lemma_contains_transfer(
            s2.object_of(source.obj).iids@,
            old(rt).class_of(source_class).iids@,
            spec_iid_desktop_window_xaml_source_native(),
        );
    }
    let interop = match IDesktopWindowXamlSourceNative::query_from(rt, &source) {
        Ok(x) => x,
        Err(e) => {
            rt.release(&mut source);
            rt.release(&mut manager);
            return Err(e);
        },
    };
    proof {
        assert(spec_source_class_attachable(*old(rt), source_class));
    }
    let attached = interop.attach_to_window(rt, hwnd);
    if let Err(e) = attached {
        let mut interop_handle = Handle { obj: interop.handle.obj };
        rt.release(&mut interop_handle);
        rt.release(&mut source);
        rt.release(&mut manager);
        return Err(e);
    }
    let surface_window = match interop.get_window_handle(rt) {
        Ok(w) => w,
        Err(e) => {
            proof {
                assert(false);
            }
            let mut interop_handle = Handle { obj: interop.handle.obj };
            rt.release(&mut interop_handle);
            rt.release(&mut source);
            rt.release(&mut manager);
            return Err(e);
        },
    };
    Ok(AttachedIsland { manager, source, interop, surface_window })
}

proof fn lemma_contains_transfer(a: Seq<InterfaceId>, b: Seq<InterfaceId>, iid: InterfaceId)
    requires
        a == b,
    ensures
        (exists|i: int| 0 <= i < a.len() && a[i] == iid) <==> (exists|i: int|
            0 <= i < b.len() && b[i] == iid),
{
    if exists|i: int| 0 <= i < a.len() && a[i] == iid {
        let j = choose|i: int| 0 <= i < a.len() && a[i] == iid;
        assert(b[j] == iid);
    }
    if exists|i: int| 0 <= i < b.len() && b[i] == iid {
        let j = choose|i: int| 0 <= i < b.len() && b[i] == iid;
        assert(a[j] == iid);
    }
}

/// Whether instances of a registered class can be cast to the
/// windowing-attachment interface.
pub open spec fn spec_source_class_attachable(rt: HostRuntime, source_class: u64) -> bool {
    exists|i: int|
        0 <= i < rt.class_of(source_class).iids@.len() && rt.class_of(source_class).iids@[i]
            == spec_iid_desktop_window_xaml_source_native()
}

} // verus!
