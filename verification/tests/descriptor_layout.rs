use xaml_island::descriptor::{
    desktop_window_xaml_source_native_descriptor, iunknown_descriptor, resolve_slot, SlotParam,
    ADD_REF_SLOT, ATTACH_TO_WINDOW_SLOT, GET_WINDOW_HANDLE_SLOT, QUERY_INTERFACE_SLOT,
    RELEASE_SLOT,
};
use xaml_island::iid::{
    iid_desktop_window_xaml_source_native, iid_iactivation_factory, iid_iinspectable, iid_iunknown,
    InterfaceId,
};
use xaml_island::status::{ComError, E_INVALIDARG};

#[test]
fn interface_id_canonical_form_matches_golden_value() {
    let built = InterfaceId::from_values(
        1019015615,
        12150,
        20124,
        [150, 171, 232, 75, 55, 151, 37, 84],
    );
    assert_eq!(built, iid_desktop_window_xaml_source_native());
    assert_eq!(built.data1, 0x3CBC_F1BF);
    assert_eq!(built.data2, 0x2F76);
    assert_eq!(built.data3, 0x4E9C);
    assert_eq!(built.data4, 0x96AB_E84B_3797_2554);
}

#[test]
fn well_known_base_interface_ids_match_golden_values() {
    let unknown = InterfaceId::from_values(0, 0, 0, [0xC0, 0, 0, 0, 0, 0, 0, 0x46]);
    assert_eq!(unknown, iid_iunknown());
    let inspectable = InterfaceId::from_values(
        0xAF86_E2E0,
        0xB12D,
        0x4C6A,
        [0x9C, 0x5A, 0xD7, 0xAA, 0x65, 0x10, 0x1E, 0x90],
    );
    assert_eq!(inspectable, iid_iinspectable());
    let factory = InterfaceId::from_values(0x35, 0, 0, [0xC0, 0, 0, 0, 0, 0, 0, 0x46]);
    assert_eq!(factory, iid_iactivation_factory());
}

#[test]
fn interface_ids_differ_between_interfaces() {
    assert_ne!(iid_iunknown(), iid_iactivation_factory());
    assert_ne!(iid_iunknown(), iid_desktop_window_xaml_source_native());
    assert_ne!(iid_iinspectable(), iid_desktop_window_xaml_source_native());
}

#[test]
fn attachment_interface_descriptor_matches_published_layout() {
    let d = desktop_window_xaml_source_native_descriptor();
    assert_eq!(d.iid, iid_desktop_window_xaml_source_native());
    assert_eq!(d.base_slot_count, 3);
    assert_eq!(d.slots.len(), 5);
    assert_eq!(
        d.slots[QUERY_INTERFACE_SLOT].params,
        vec![SlotParam::ThisPtr, SlotParam::InterfaceIdRef, SlotParam::OutObject]
    );
    assert!(d.slots[QUERY_INTERFACE_SLOT].returns_status);
    assert_eq!(d.slots[ADD_REF_SLOT].params, vec![SlotParam::ThisPtr]);
    assert!(!d.slots[ADD_REF_SLOT].returns_status);
    assert_eq!(d.slots[RELEASE_SLOT].params, vec![SlotParam::ThisPtr]);
    assert!(!d.slots[RELEASE_SLOT].returns_status);
    assert_eq!(
        d.slots[ATTACH_TO_WINDOW_SLOT].params,
        vec![SlotParam::ThisPtr, SlotParam::WindowId]
    );
    assert!(d.slots[ATTACH_TO_WINDOW_SLOT].returns_status);
    assert_eq!(
        d.slots[GET_WINDOW_HANDLE_SLOT].params,
        vec![SlotParam::ThisPtr, SlotParam::OutWindowId]
    );
    assert!(d.slots[GET_WINDOW_HANDLE_SLOT].returns_status);
}

#[test]
fn base_interface_descriptor_matches_published_layout() {
    let d = iunknown_descriptor();
    assert_eq!(d.iid, iid_iunknown());
    assert_eq!(d.base_slot_count, 0);
    assert_eq!(d.slots.len(), 3);
    assert_eq!(
        d.slots[QUERY_INTERFACE_SLOT].params,
        vec![SlotParam::ThisPtr, SlotParam::InterfaceIdRef, SlotParam::OutObject]
    );
}

#[test]
fn slot_resolution_rejects_out_of_table_indices() {
    let d = desktop_window_xaml_source_native_descriptor();
    assert_eq!(resolve_slot(&d, ATTACH_TO_WINDOW_SLOT), Ok(ATTACH_TO_WINDOW_SLOT));
    assert_eq!(resolve_slot(&d, GET_WINDOW_HANDLE_SLOT), Ok(GET_WINDOW_HANDLE_SLOT));
    assert_eq!(resolve_slot(&d, 5), Err(ComError::Status(E_INVALIDARG)));
    assert_eq!(resolve_slot(&d, 1000), Err(ComError::Status(E_INVALIDARG)));
}

#[test]
fn trailing_byte_packing_covers_the_extremes() {
    let all_high = InterfaceId::from_values(0, 0, 0, [0xFF; 8]);
    assert_eq!(all_high.data4, u64::MAX);
    let all_low = InterfaceId::from_values(0, 0, 0, [0; 8]);
    assert_eq!(all_low.data4, 0);
    let single = InterfaceId::from_values(0, 0, 0, [1, 0, 0, 0, 0, 0, 0, 0]);
    assert_eq!(single.data4, 0x0100_0000_0000_0000);
}
