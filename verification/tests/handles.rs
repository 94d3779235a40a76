use xaml_island::iid::{iid_desktop_window_xaml_source_native, iid_iinspectable, iid_iunknown,
    InterfaceId};
use xaml_island::runtime::{ro_initialize, ro_uninitialize, Handle, HostRuntime, RoInitType};
use xaml_island::status::{
    ComError, CLASS_E_CLASSNOTAVAILABLE, CLASS_E_NOAGGREGATION, E_NOINTERFACE,
};

fn ready_runtime_with_class(iids: Vec<InterfaceId>, factory_available: bool) -> (HostRuntime, u64) {
    let mut rt = HostRuntime::new();
    let class = rt.register_class(iids, factory_available);
    ro_initialize(&mut rt, RoInitType::MultiThreaded).unwrap();
    (rt, class)
}

#[test]
fn clone_then_two_releases_destroys_exactly_once() {
    let (mut rt, class) = ready_runtime_with_class(vec![iid_iunknown()], false);
    let mut original = rt.activate_instance(class).unwrap();
    let idx = (original.obj - 1) as usize;
    assert_eq!(rt.objects[idx].ref_count, 1);

    let mut duplicate = rt.clone_handle(&original);
    assert_eq!(duplicate, original);
    assert_eq!(rt.objects[idx].ref_count, 2);

    rt.release(&mut duplicate);
    assert_eq!(rt.objects[idx].ref_count, 1);
    assert!(!rt.objects[idx].destroyed);
    assert_eq!(duplicate.obj, 0);

    rt.release(&mut original);
    assert_eq!(rt.objects[idx].ref_count, 0);
    assert!(rt.objects[idx].destroyed);
    assert_eq!(original.obj, 0);

    rt.release(&mut duplicate);
    rt.release(&mut original);
    assert_eq!(rt.objects[idx].ref_count, 0);
    assert!(rt.objects[idx].destroyed);
}

#[test]
fn releasing_a_handle_twice_is_a_no_op_the_second_time() {
    let (mut rt, class) = ready_runtime_with_class(vec![iid_iunknown()], false);
    let mut h = rt.activate_instance(class).unwrap();
    let idx = (h.obj - 1) as usize;

    rt.release(&mut h);
    assert_eq!(h.obj, 0);
    assert_eq!(rt.objects[idx].ref_count, 0);
    assert!(rt.objects[idx].destroyed);

    rt.release(&mut h);
    assert_eq!(h.obj, 0);
    assert_eq!(rt.objects[idx].ref_count, 0);
    assert!(rt.objects[idx].destroyed);
}

#[test]
fn factory_activation_yields_fresh_instance_with_count_one() {
    let (mut rt, class) = ready_runtime_with_class(vec![iid_iunknown(), iid_iinspectable()], true);
    let factory = rt.get_activation_factory(class).unwrap();
    assert_ne!(factory.obj, 0);
    let instance = rt.create_instance(&factory, &Handle::null()).unwrap();
    assert_ne!(instance.obj, 0);
    assert_ne!(instance, factory);
    let idx = (instance.obj - 1) as usize;
    assert_eq!(rt.objects[idx].ref_count, 1);
    assert!(!rt.objects[idx].destroyed);
    assert_eq!(rt.objects[idx].iids, vec![iid_iunknown(), iid_iinspectable()]);
}

#[test]
fn factory_refuses_aggregation() {
    let (mut rt, class) = ready_runtime_with_class(vec![iid_iunknown()], true);
    let factory = rt.get_activation_factory(class).unwrap();
    let outer = rt.activate_instance(class).unwrap();
    let r = rt.create_instance(&factory, &outer);
    assert_eq!(r, Err(ComError::Status(CLASS_E_NOAGGREGATION)));
}

#[test]
fn missing_factory_is_rejected_not_attempted() {
    let (mut rt, class) = ready_runtime_with_class(vec![iid_iunknown()], false);
    let r = rt.get_activation_factory(class);
    assert_eq!(r, Err(ComError::Status(CLASS_E_CLASSNOTAVAILABLE)));
}

#[test]
fn activation_before_initialization_is_a_distinct_error() {
    let mut rt = HostRuntime::new();
    let class = rt.register_class(vec![iid_iunknown()], false);
    assert_eq!(rt.activate_instance(class), Err(ComError::NotInitialized));
    assert_eq!(rt.get_activation_factory(class), Err(ComError::NotInitialized));
}

#[test]
fn activation_of_unregistered_class_fails() {
    let (mut rt, class) = ready_runtime_with_class(vec![iid_iunknown()], false);
    let r = rt.activate_instance(class + 7);
    assert_eq!(r, Err(ComError::Status(CLASS_E_CLASSNOTAVAILABLE)));
    assert_eq!(rt.activate_instance(0), Err(ComError::Status(CLASS_E_CLASSNOTAVAILABLE)));
}

#[test]
fn query_interface_for_missing_interface_never_returns_a_handle() {
    let (mut rt, class) = ready_runtime_with_class(vec![iid_iunknown()], false);
    let h = rt.activate_instance(class).unwrap();
    let idx = (h.obj - 1) as usize;
    let target = iid_desktop_window_xaml_source_native();
    let r = rt.query_interface(&h, &target);
    assert_eq!(r, Err(ComError::Status(E_NOINTERFACE)));
    assert_eq!(rt.objects[idx].ref_count, 1);
}

#[test]
fn query_interface_for_implemented_interface_increments_count() {
    let (mut rt, class) =
        ready_runtime_with_class(vec![iid_iunknown(), iid_desktop_window_xaml_source_native()], false);
    let h = rt.activate_instance(class).unwrap();
    let idx = (h.obj - 1) as usize;
    let target = iid_desktop_window_xaml_source_native();
    let cast = rt.query_interface(&h, &target).unwrap();
    assert_eq!(cast, h);
    assert_eq!(rt.objects[idx].ref_count, 2);
}

#[test]
fn null_handles_are_inert() {
    let (mut rt, _class) = ready_runtime_with_class(vec![iid_iunknown()], false);
    let null = Handle::null();
    assert_eq!(rt.query_interface(&null, &iid_iunknown()), Err(ComError::NullHandle));
    let copy = rt.clone_handle(&null);
    assert_eq!(copy.obj, 0);
    let mut releasable = Handle::null();
    rt.release(&mut releasable);
    assert_eq!(releasable.obj, 0);
    assert_eq!(rt.objects.len(), 0);
}

#[test]
fn initialization_is_idempotent_and_teardown_reverts_it() {
    let mut rt = HostRuntime::new();
    let class = rt.register_class(vec![iid_iunknown()], false);
    assert_eq!(ro_initialize(&mut rt, RoInitType::MultiThreaded), Ok(()));
    assert_eq!(ro_initialize(&mut rt, RoInitType::SingleThreaded), Ok(()));
    assert!(rt.initialized);
    assert!(rt.activate_instance(class).is_ok());
    ro_uninitialize(&mut rt);
    assert!(!rt.initialized);
    assert_eq!(rt.activate_instance(class), Err(ComError::NotInitialized));
}

#[test]
fn init_type_codes_match_the_host_abi() {
    assert_eq!(RoInitType::MultiThreaded.code(), 0);
    assert_eq!(RoInitType::SingleThreaded.code(), 1);
}
