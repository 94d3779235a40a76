//! Interface layout descriptors: for each foreign interface, the ordered
//! list of virtual dispatch slots with their signatures, the slots of the
//! base interface standing before those of the derived one.
//!
//! A descriptor is static data.  A mismatch between a descriptor and the
//! layout the host runtime publishes for the same identifier is a binary
//! contract violation that no layer above can catch, so the descriptors
//! written here pin every slot exactly and golden tests hold them to the
//! published layouts.

use vstd::prelude::*;

use crate::iid::{
    iid_desktop_window_xaml_source_native,
    iid_iunknown,
    spec_iid_desktop_window_xaml_source_native,
    spec_iid_iunknown,
    InterfaceId,
};
use crate::status::{ComError, E_INVALIDARG};

verus! {

/// The kind of one parameter of a virtual slot, as it crosses the ABI.
#[derive(Clone, Copy, PartialEq, Eq, Structural, Debug)]
pub enum SlotParam {
    /// The non-null object pointer the call is dispatched through.
    ThisPtr,
    /// A borrowed 128-bit interface identifier.
    InterfaceIdRef,
    /// Caller-supplied storage that receives an object pointer.
    OutObject,
    /// A native window identifier passed by value.
    WindowId,
    /// Caller-supplied storage that receives a native window identifier.
    OutWindowId,
}

/// One virtual dispatch slot: its parameters in ABI order and whether it
/// returns a 32-bit status code.
#[derive(Debug)]
pub struct MethodSlot {
    pub params: Vec<SlotParam>,
    pub returns_status: bool,
}

/// The layout of one foreign interface: its identifier, how many leading
/// slots belong to base interfaces, and the full ordered slot list.
#[derive(Debug)]
pub struct InterfaceDescriptor {
    pub iid: InterfaceId,
    pub base_slot_count: usize,
    pub slots: Vec<MethodSlot>,
}

impl InterfaceDescriptor {
    /// Base slots precede derived ones, so they can never outnumber the
    /// whole table.
    pub open spec fn wf(self) -> bool {
        self.base_slot_count <= self.slots@.len()
    }
}

/// Slot index of `QueryInterface` on every foreign object.
pub const QUERY_INTERFACE_SLOT: usize = 0;

/// Slot index of `AddRef` on every foreign object.
pub const ADD_REF_SLOT: usize = 1;

/// Slot index of `Release` on every foreign object.
pub const RELEASE_SLOT: usize = 2;

/// Slot index of `AttachToWindow` on the windowing-attachment interface.
pub const ATTACH_TO_WINDOW_SLOT: usize = 3;

/// Slot index of `GetWindowHandle` on the windowing-attachment interface.
pub const GET_WINDOW_HANDLE_SLOT: usize = 4;

/// The three well-known slots opening every vtable.
pub open spec fn spec_iunknown_slots(s: Seq<MethodSlot>) -> bool {
    &&& s.len() == 3
    &&& s[QUERY_INTERFACE_SLOT as int].params@ =~= seq![
        SlotParam::ThisPtr,
        SlotParam::InterfaceIdRef,
        SlotParam::OutObject,
    ]
    &&& s[QUERY_INTERFACE_SLOT as int].returns_status == true
    &&& s[ADD_REF_SLOT as int].params@ =~= seq![SlotParam::ThisPtr]
    &&& s[ADD_REF_SLOT as int].returns_status == false
    &&& s[RELEASE_SLOT as int].params@ =~= seq![SlotParam::ThisPtr]
    &&& s[RELEASE_SLOT as int].returns_status == false
}

fn iunknown_slots() -> (s: Vec<MethodSlot>)
    ensures
        spec_iunknown_slots(s@),
{
    let mut qi_params: Vec<SlotParam> = Vec::new();
    qi_params.push(SlotParam::ThisPtr);
    qi_params.push(SlotParam::InterfaceIdRef);
    qi_params.push(SlotParam::OutObject);
    let mut addref_params: Vec<SlotParam> = Vec::new();
    addref_params.push(SlotParam::ThisPtr);
    let mut release_params: Vec<SlotParam> = Vec::new();
    release_params.push(SlotParam::ThisPtr);
    let mut s: Vec<MethodSlot> = Vec::new();
    s.push(MethodSlot { params: qi_params, returns_status: true });
    s.push(MethodSlot { params: addref_params, returns_status: false });
    s.push(MethodSlot { params: release_params, returns_status: false });
    s
}

/// Layout of the base interface present on every foreign object: the
/// three reference-counting and capability-query slots, no base of its own.
pub fn iunknown_descriptor() -> (d: InterfaceDescriptor)
    ensures
        d.iid == spec_iid_iunknown(),
        d.base_slot_count == 0,
        spec_iunknown_slots(d.slots@),
        d.wf(),
{
    InterfaceDescriptor { iid: iid_iunknown(), base_slot_count: 0, slots: iunknown_slots() }
}

/// What the host runtime publishes for the windowing-attachment interface:
/// the three base slots, then `AttachToWindow(this, window)` and
/// `GetWindowHandle(this, out window)`, both returning a status.
pub open spec fn spec_desktop_window_xaml_source_native_layout(d: InterfaceDescriptor) -> bool {
    &&& d.iid == spec_iid_desktop_window_xaml_source_native()
    &&& d.base_slot_count == 3
    &&& d.slots@.len() == 5
    &&& spec_iunknown_slots(d.slots@.subrange(0, 3))
    &&& d.slots@[ATTACH_TO_WINDOW_SLOT as int].params@ =~= seq![
        SlotParam::ThisPtr,
        SlotParam::WindowId,
    ]
    &&& d.slots@[ATTACH_TO_WINDOW_SLOT as int].returns_status == true
    &&& d.slots@[GET_WINDOW_HANDLE_SLOT as int].params@ =~= seq![
        SlotParam::ThisPtr,
        SlotParam::OutWindowId,
    ]
    &&& d.slots@[GET_WINDOW_HANDLE_SLOT as int].returns_status == true
}

/// Layout descriptor of the windowing-attachment interface of the hosted
/// UI surface.
pub fn desktop_window_xaml_source_native_descriptor() -> (d: InterfaceDescriptor)
    ensures
        spec_desktop_window_xaml_source_native_layout(d),
        d.wf(),
{
    let mut slots: Vec<MethodSlot> = iunknown_slots();
    let mut attach_params: Vec<SlotParam> = Vec::new();
    attach_params.push(SlotParam::ThisPtr);
    attach_params.push(SlotParam::WindowId);
    let mut get_params: Vec<SlotParam> = Vec::new();
    get_params.push(SlotParam::ThisPtr);
    get_params.push(SlotParam::OutWindowId);
    slots.push(MethodSlot { params: attach_params, returns_status: true });
    slots.push(MethodSlot { params: get_params, returns_status: true });
    let d = InterfaceDescriptor {
        iid: iid_desktop_window_xaml_source_native(),
        base_slot_count: 3,
        slots,
    };
    proof {
        assert(spec_iunknown_slots(d.slots@.subrange(0, 3)));
    }
    d
}

/// Resolves a slot index against a descriptor before any raw dispatch: an
/// index beyond the table is rejected with the invalid-argument status,
/// never handed to the foreign side.
pub fn resolve_slot(d: &InterfaceDescriptor, slot: usize) -> (r: Result<usize, ComError>)
    ensures
        slot < d.slots@.len() ==> r == Ok::<usize, ComError>(slot),
        slot >= d.slots@.len() ==> r == Err::<usize, ComError>(ComError::Status(E_INVALIDARG)),
{
    if slot < d.slots.len() {
        Ok(slot)
    } else {
        Err(ComError::Status(E_INVALIDARG))
    }
}

} // verus!
