use render_core::physical_devices::{
    get_compatible_physical_devices, get_prefered_physical_device, CandidateDevice,
    PhysicalDeviceInfo, PhysicalDeviceType, QueueFamilyInfo,
};

fn family(graphics: bool, present: bool) -> QueueFamilyInfo {
    QueueFamilyInfo { graphics, present }
}

fn device(
    device_type: PhysicalDeviceType,
    supports_required_extensions: bool,
    queue_families: Vec<QueueFamilyInfo>,
) -> PhysicalDeviceInfo {
    PhysicalDeviceInfo { device_type, supports_required_extensions, queue_families }
}

#[test]
fn filter_keeps_only_qualifying_devices() {
    let devices = vec![
        // no required extensions: excluded
        device(PhysicalDeviceType::DiscreteGpu, false, vec![family(true, true)]),
        // no graphics-and-present family: excluded
        device(PhysicalDeviceType::DiscreteGpu, true, vec![family(true, false), family(false, true)]),
        // qualifies
        device(PhysicalDeviceType::IntegratedGpu, true, vec![family(true, true)]),
        // no queue families at all: excluded
        device(PhysicalDeviceType::Cpu, true, vec![]),
    ];
    let candidates = get_compatible_physical_devices(&devices);
    assert_eq!(candidates.len(), 1);
    assert_eq!(candidates[0].device_index, 2);
    assert_eq!(candidates[0].device_type, PhysicalDeviceType::IntegratedGpu);
    assert_eq!(candidates[0].queue_family_index, 0);
}

#[test]
fn first_usable_queue_family_is_chosen() {
    let devices = vec![device(
        PhysicalDeviceType::DiscreteGpu,
        true,
        vec![family(true, false), family(false, true), family(true, true), family(true, true)],
    )];
    let candidates = get_compatible_physical_devices(&devices);
    assert_eq!(candidates.len(), 1);
    assert_eq!(candidates[0].queue_family_index, 2);
}

#[test]
fn three_mock_devices_select_discrete() {
    // integrated (qualifies), discrete (qualifies), virtual (qualifies)
    let devices = vec![
        device(PhysicalDeviceType::IntegratedGpu, true, vec![family(true, true)]),
        device(PhysicalDeviceType::DiscreteGpu, true, vec![family(true, true)]),
        device(PhysicalDeviceType::VirtualGpu, true, vec![family(true, true)]),
    ];
    let candidates = get_compatible_physical_devices(&devices);
    assert_eq!(candidates.len(), 3);
    let chosen = get_prefered_physical_device(&candidates).expect("a device qualifies");
    assert_eq!(chosen.device_type, PhysicalDeviceType::DiscreteGpu);
    assert_eq!(chosen.device_index, 1);
}

#[test]
fn selection_is_deterministic() {
    let devices = vec![
        device(PhysicalDeviceType::VirtualGpu, true, vec![family(true, true)]),
        device(PhysicalDeviceType::IntegratedGpu, true, vec![family(true, true)]),
        device(PhysicalDeviceType::Cpu, true, vec![family(true, true)]),
    ];
    let first = get_prefered_physical_device(&get_compatible_physical_devices(&devices));
    let second = get_prefered_physical_device(&get_compatible_physical_devices(&devices));
    assert_eq!(first, second);
    assert_eq!(first.unwrap().device_type, PhysicalDeviceType::IntegratedGpu);
}

#[test]
fn discrete_is_never_passed_over() {
    // a qualifying discrete device late in the enumeration still wins
    let devices = vec![
        device(PhysicalDeviceType::Cpu, true, vec![family(true, true)]),
        device(PhysicalDeviceType::IntegratedGpu, true, vec![family(true, true)]),
        device(PhysicalDeviceType::VirtualGpu, true, vec![family(true, true)]),
        device(PhysicalDeviceType::DiscreteGpu, true, vec![family(true, true)]),
    ];
    let chosen =
        get_prefered_physical_device(&get_compatible_physical_devices(&devices)).unwrap();
    assert_eq!(chosen.device_type, PhysicalDeviceType::DiscreteGpu);
    assert_eq!(chosen.device_index, 3);
}

#[test]
fn unqualifying_discrete_is_not_chosen() {
    // the selection ranks within the filtered set only: a discrete device
    // that fails the extension check must not be chosen
    let devices = vec![
        device(PhysicalDeviceType::DiscreteGpu, false, vec![family(true, true)]),
        device(PhysicalDeviceType::IntegratedGpu, true, vec![family(true, true)]),
    ];
    let chosen =
        get_prefered_physical_device(&get_compatible_physical_devices(&devices)).unwrap();
    assert_eq!(chosen.device_type, PhysicalDeviceType::IntegratedGpu);
    assert_eq!(chosen.device_index, 1);
}

#[test]
fn ties_break_by_encounter_order() {
    let devices = vec![
        device(PhysicalDeviceType::IntegratedGpu, true, vec![family(true, true)]),
        device(PhysicalDeviceType::IntegratedGpu, true, vec![family(true, true)]),
    ];
    let chosen =
        get_prefered_physical_device(&get_compatible_physical_devices(&devices)).unwrap();
    assert_eq!(chosen.device_index, 0);
}

#[test]
fn no_qualifying_device_is_fatal() {
    let devices = vec![
        device(PhysicalDeviceType::DiscreteGpu, false, vec![family(true, true)]),
        device(PhysicalDeviceType::Cpu, true, vec![family(false, true)]),
    ];
    let candidates = get_compatible_physical_devices(&devices);
    assert!(candidates.is_empty());
    assert_eq!(get_prefered_physical_device(&candidates), None);
    let none: Vec<CandidateDevice> = Vec::new();
    assert_eq!(get_prefered_physical_device(&none), None);
}
