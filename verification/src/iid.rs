//! Interface identity: the 128-bit identifiers that name one vtable
//! layout/contract of the foreign runtime.

use vstd::prelude::*;

verus! {

/// A 128-bit interface identifier in the host ABI's canonical form:
/// one 32-bit group, two 16-bit groups, and eight trailing bytes
/// (stored here packed big-endian into one 64-bit field).
///
/// Two identifiers are equal exactly when all four groups are equal.
#[derive(Clone, Copy, PartialEq, Eq, Structural, Debug)]
pub struct InterfaceId {
    pub data1: u32,
    pub data2: u16,
    pub data3: u16,
    pub data4: u64,
}

impl InterfaceId {
    /// Builds an identifier from the canonical four-group form, with the
    /// trailing eight bytes given in order, most significant first.
    pub fn from_values(data1: u32, data2: u16, data3: u16, data4: [u8; 8]) -> (r: InterfaceId)
        ensures
            r.data1 == data1,
            r.data2 == data2,
            r.data3 == data3,
            r.data4 == (data4[0] as int) * 0x0100_0000_0000_0000 + (data4[1] as int)
                * 0x0001_0000_0000_0000 + (data4[2] as int) * 0x0000_0100_0000_0000 + (
            data4[3] as int) * 0x0000_0001_0000_0000 + (data4[4] as int) * 0x0100_0000 + (
            data4[5] as int) * 0x0001_0000 + (data4[6] as int) * 0x0100 + (data4[7] as int),
    {
        let b0: u64 = data4[0] as u64;
        let b1: u64 = data4[1] as u64;
        let b2: u64 = data4[2] as u64;
        let b3: u64 = data4[3] as u64;
        let b4: u64 = data4[4] as u64;
        let b5: u64 = data4[5] as u64;
        let b6: u64 = data4[6] as u64;
        let b7: u64 = data4[7] as u64;
        let packed: u64 = b0 * 0x0100_0000_0000_0000 + b1 * 0x0001_0000_0000_0000 + b2
            * 0x0000_0100_0000_0000 + b3 * 0x0000_0001_0000_0000 + b4 * 0x0100_0000 + b5
            * 0x0001_0000 + b6 * 0x0100 + b7;
        InterfaceId { data1, data2, data3, data4: packed }
    }
}

/// Identifier of the windowing-attachment interface of the hosted UI
/// surface (`IDesktopWindowXamlSourceNative`).
pub open spec fn spec_iid_desktop_window_xaml_source_native() -> InterfaceId {
    InterfaceId { data1: 0x3CBC_F1BF, data2: 0x2F76, data3: 0x4E9C, data4: 0x96AB_E84B_3797_2554 }
}

/// Identifier of the base interface present on every foreign object
/// (`IUnknown`), whose three slots open every vtable.
pub open spec fn spec_iid_iunknown() -> InterfaceId {
    InterfaceId { data1: 0, data2: 0, data3: 0, data4: 0xC000_0000_0000_0046 }
}

/// Identifier of the runtime's inspectable base interface (`IInspectable`).
pub open spec fn spec_iid_iinspectable() -> InterfaceId {
    InterfaceId { data1: 0xAF86_E2E0, data2: 0xB12D, data3: 0x4C6A, data4: 0x9C5A_D7AA_6510_1E90 }
}

/// Identifier of the activation-factory interface (`IActivationFactory`),
/// implemented by the well-known objects that create instances.
pub open spec fn spec_iid_iactivation_factory() -> InterfaceId {
    InterfaceId { data1: 0x0000_0035, data2: 0, data3: 0, data4: 0xC000_0000_0000_0046 }
}

pub fn iid_desktop_window_xaml_source_native() -> (r: InterfaceId)
    ensures
        r == spec_iid_desktop_window_xaml_source_native(),
{
    InterfaceId { data1: 0x3CBC_F1BF, data2: 0x2F76, data3: 0x4E9C, data4: 0x96AB_E84B_3797_2554 }
}

pub fn iid_iunknown() -> (r: InterfaceId)
    ensures
        r == spec_iid_iunknown(),
{
    InterfaceId { data1: 0, data2: 0, data3: 0, data4: 0xC000_0000_0000_0046 }
}

pub fn iid_iinspectable() -> (r: InterfaceId)
    ensures
        r == spec_iid_iinspectable(),
{
    InterfaceId { data1: 0xAF86_E2E0, data2: 0xB12D, data3: 0x4C6A, data4: 0x9C5A_D7AA_6510_1E90 }
}

pub fn iid_iactivation_factory() -> (r: InterfaceId)
    ensures
        r == spec_iid_iactivation_factory(),
{
    InterfaceId { data1: 0x0000_0035, data2: 0, data3: 0, data4: 0xC000_0000_0000_0046 }
}

} // verus!
