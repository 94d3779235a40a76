//! The window-attachment protocol: the one domain-specific operation
//! layered on the interop core.  A handle that implements the
//! windowing-attachment interface can parent the hosted UI surface under
//! a native window and then hand back the native window the surface
//! created for itself.

use vstd::prelude::*;

use crate::iid::{iid_desktop_window_xaml_source_native, spec_iid_desktop_window_xaml_source_native};
use crate::runtime::{after_addref, lemma_implements_same_iids, object_implements, Handle,
    HostRuntime, ObjectInstance};
use crate::status::{ComError, E_INVALIDARG, E_NOINTERFACE};

verus! {

/// Detects a null handle before any raw dispatch: calling through null is
/// unrecoverable at the ABI level, so it is reported as its own error
/// kind, never handed to the foreign side.
pub fn this_pointer(h: &Handle) -> (r: Result<u64, ComError>)
    ensures
        h.obj == 0 ==> r == Err::<u64, ComError>(ComError::NullHandle),
        h.obj != 0 ==> r == Ok::<u64, ComError>(h.obj),
{
    if h.obj == 0 {
        Err(ComError::NullHandle)
    } else {
        Ok(h.obj)
    }
}

/// The native window the surface creates for itself when parented under
/// `hwnd`: some identifier of the host's choosing that is never null and
/// never the parent itself.  The ledger stands in for the host's choice
/// with a fixed one.
pub open spec fn surface_window_for(hwnd: u64) -> u64 {
    if hwnd == 0xFFFF_FFFF_FFFF_FFFFu64 {
        1
    } else {
        (hwnd + 1) as u64
    }
}

/// The instance after the surface has been parented under `hwnd`.
pub open spec fn after_attach(o: ObjectInstance, hwnd: u64) -> ObjectInstance {
    ObjectInstance {
        attached_window: hwnd,
        surface_window: surface_window_for(hwnd),
        ..o
    }
}

/// A typed handle to the windowing-attachment interface of the hosted UI
/// surface.  It is only obtained through a successful capability query,
/// so a non-null one is known to satisfy the interface's table layout.
#[derive(Debug)]
pub struct IDesktopWindowXamlSourceNative {
    pub handle: Handle,
}

impl IDesktopWindowXamlSourceNative {
    /// A non-null typed handle points at a live instance implementing
    /// the windowing-attachment interface.
    pub open spec fn wf(self, rt: HostRuntime) -> bool {
        self.handle.obj == 0 || (rt.live_object(self.handle.obj) && object_implements(
            rt.object_of(self.handle.obj),
            spec_iid_desktop_window_xaml_source_native(),
        ))
    }

    /// Casts an existing handle to the windowing-attachment interface by
    /// querying the instance behind it.  On success the typed handle
    /// owns its own incremented reference, independent of `source`; an
    /// instance without the interface yields the no-such-interface
    /// status and no handle.
    pub fn query_from(rt: &mut HostRuntime, source: &Handle) -> (r: Result<
        IDesktopWindowXamlSourceNative,
        ComError,
    >)
        requires
            old(rt).wf(),
            old(rt).live_handle(*source),
            source.obj != 0 ==> old(rt).object_of(source.obj).ref_count < 0xFFFF_FFFFu32,
        ensures
            final(rt).wf(),
            final(rt).initialized == old(rt).initialized,
            final(rt).classes == old(rt).classes,
            source.obj == 0 ==> r == Err::<IDesktopWindowXamlSourceNative, ComError>(
                ComError::NullHandle,
            ) && *final(rt) == *old(rt),
            source.obj != 0 && !object_implements(
                old(rt).object_of(source.obj),
                spec_iid_desktop_window_xaml_source_native(),
            ) ==> r == Err::<IDesktopWindowXamlSourceNative, ComError>(
                ComError::Status(E_NOINTERFACE),
            ) && *final(rt) == *old(rt),
            source.obj != 0 && object_implements(
                old(rt).object_of(source.obj),
                spec_iid_desktop_window_xaml_source_native(),
            ) ==> {
                &&& r is Ok
                &&& r->Ok_0.handle.obj == source.obj
                &&& r->Ok_0.wf(*final(rt))
                &&& final(rt).objects@ =~= old(rt).objects@.update(
                    source.obj - 1,
                    after_addref(old(rt).object_of(source.obj)),
                )
            },
    {
        let target = iid_desktop_window_xaml_source_native();
        match rt.query_interface(source, &target) {
            Ok(h) => {
                proof {
                    assert(rt.object_of(h.obj) == after_addref(old(rt).object_of(source.obj)));
                    lemma_implements_same_iids(
                        old(rt).object_of(source.obj),
                        rt.object_of(h.obj),
                        spec_iid_desktop_window_xaml_source_native(),
                    );
                }
                Ok(IDesktopWindowXamlSourceNative { handle: h })
            },
            Err(e) => Err(e),
        }
    }

    /// Requests that the hosted surface parent itself under the given
    /// native window.
    ///
    /// A null typed handle is a caller error detected before dispatch; a
    /// null native window identifier is rejected by the host with the
    /// invalid-argument status and changes nothing.  The host does not
    /// promise idempotence, so attaching an already-attached surface is
    /// ruled out by precondition (single-call discipline).  On success
    /// the surface records its parent and creates a native window of its
    /// own, never null and never the parent itself.
    pub fn attach_to_window(&self, rt: &mut HostRuntime, hwnd: u64) -> (r: Result<(), ComError>)
        requires
            old(rt).wf(),
            self.wf(*old(rt)),
            self.handle.obj != 0 && hwnd != 0 ==> old(rt).object_of(
                self.handle.obj,
            ).attached_window == 0,
        ensures
            final(rt).wf(),
            final(rt).initialized == old(rt).initialized,
            final(rt).classes == old(rt).classes,
            self.handle.obj == 0 ==> r == Err::<(), ComError>(ComError::NullHandle) && *final(rt)
                == *old(rt),
            self.handle.obj != 0 && hwnd == 0 ==> r == Err::<(), ComError>(
                ComError::Status(E_INVALIDARG),
            ) && *final(rt) == *old(rt),
            self.handle.obj != 0 && hwnd != 0 ==> {
                &&& r == Ok::<(), ComError>(())
                &&& final(rt).objects@ =~= old(rt).objects@.update(
                    self.handle.obj - 1,
                    after_attach(old(rt).object_of(self.handle.obj), hwnd),
                )
                &&& final(rt).object_of(self.handle.obj).attached_window == hwnd
                &&& final(rt).object_of(self.handle.obj).surface_window != 0
                &&& final(rt).object_of(self.handle.obj).surface_window != hwnd
                &&& self.wf(*final(rt))
            },
    {
        if self.handle.obj == 0 {
            return Err(ComError::NullHandle);
        }
        if hwnd == 0 {
            return Err(ComError::Status(E_INVALIDARG));
        }
        let n_obj: usize = rt.objects.len();
        proof {
            assert(1 <= self.handle.obj <= n_obj);
        }
        let idx: usize = (self.handle.obj as usize) - 1;
        let surface: u64 = if hwnd == 0xFFFF_FFFF_FFFF_FFFFu64 {
            1
        } else {
            hwnd + 1
        };
        let o = &mut rt.objects[idx];
        o.attached_window = hwnd;
        o.surface_window = surface;
        proof {
            assert(rt.objects@ =~= old(rt).objects@.update(
                self.handle.obj - 1,
                after_attach(old(rt).object_of(self.handle.obj), hwnd),
            ));
            lemma_implements_same_iids(
                old(rt).object_of(self.handle.obj),
                rt.object_of(self.handle.obj),
                spec_iid_desktop_window_xaml_source_native(),
            );
        }
        Ok(())
    }

    /// Retrieves the native window the hosted surface created for itself
    /// on attachment, so the owning process can size and position it.
    ///
    /// A null typed handle is a caller error detected before dispatch;
    /// before any successful attach there is no such window, and the
    /// call fails with the not-attached error.
    pub fn get_window_handle(&self, rt: &HostRuntime) -> (r: Result<u64, ComError>)
        requires
            rt.wf(),
            self.wf(*rt),
        ensures
            self.handle.obj == 0 ==> r == Err::<u64, ComError>(ComError::NullHandle),
            self.handle.obj != 0 && rt.object_of(self.handle.obj).attached_window == 0 ==> r
                == Err::<u64, ComError>(ComError::NotAttached),
            self.handle.obj != 0 && rt.object_of(self.handle.obj).attached_window != 0 ==> {
                &&& r == Ok::<u64, ComError>(rt.object_of(self.handle.obj).surface_window)
                &&& r->Ok_0 != 0
            },
    {
        if self.handle.obj == 0 {
            return Err(ComError::NullHandle);
        }
        let n_obj: usize = rt.objects.len();
        proof {
            assert(1 <= self.handle.obj <= n_obj);
        }
        let idx: usize = (self.handle.obj as usize) - 1;
        if rt.objects[idx].attached_window == 0 {
            return Err(ComError::NotAttached);
        }
        Ok(rt.objects[idx].surface_window)
    }
}

} // verus!
