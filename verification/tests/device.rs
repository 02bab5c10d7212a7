use enegine::device::{
    find_presentable_family, get_queue_family_idx, select_device, Device, InitializationError,
    MemoryProperties, MemoryRequirements, MemoryType, NoCompatibleQueue, PhysicalDevice,
    QueueFamily, QueueFamilyIndices,
};
use enegine::flags::{
    contains, MEMORY_DEVICE_LOCAL, MEMORY_HOST_COHERENT, MEMORY_HOST_VISIBLE, QUEUE_COMPUTE,
    QUEUE_GRAPHICS, QUEUE_TRANSFER,
};
use enegine::status::{allocation_failure, ErrorKind};
use enegine::memory::{
    find_memorytype_index, find_memorytype_index_f, memory_flags, memory_type_for, MemoryLocality,
};

fn family(flags: u32, supports_present: bool) -> QueueFamily {
    QueueFamily { flags, supports_present }
}

fn device(families: Vec<QueueFamily>) -> PhysicalDevice {
    PhysicalDevice { families, memory: MemoryProperties { memory_types: Vec::new() } }
}

fn types(flags: &[u32]) -> MemoryProperties {
    MemoryProperties {
        memory_types: flags
            .iter()
            .map(|f| MemoryType { property_flags: *f, heap_index: 0 })
            .collect(),
    }
}

fn requirements(memory_type_bits: u32) -> MemoryRequirements {
    MemoryRequirements { size: 256, alignment: 16, memory_type_bits }
}

#[test]
fn it_works() {
    assert_eq!(2 + 2, 4);
}

#[test]
fn contains_is_the_subset_test() {
    assert!(contains(0b111, 0b101));
    assert!(contains(0b111, 0));
    assert!(!contains(0b011, 0b101));
    assert!(contains(0, 0));
    assert!(!contains(0, 1));
}

#[test]
fn graphics_without_present_is_no_suitable_device() {
    let devices = vec![device(vec![family(QUEUE_GRAPHICS, false)])];
    assert_eq!(select_device(&devices), Err(InitializationError::NoSuitableDevice));
    assert_eq!(Device::new(devices, QUEUE_GRAPHICS), Err(InitializationError::NoSuitableDevice));
}

#[test]
fn present_without_graphics_is_no_suitable_device() {
    let devices = vec![device(vec![family(QUEUE_COMPUTE | QUEUE_TRANSFER, true)])];
    assert_eq!(select_device(&devices), Err(InitializationError::NoSuitableDevice));
}

#[test]
fn no_device_is_no_suitable_device() {
    let devices: Vec<PhysicalDevice> = Vec::new();
    assert_eq!(select_device(&devices), Err(InitializationError::NoSuitableDevice));
    let devices = vec![device(Vec::new())];
    assert_eq!(select_device(&devices), Err(InitializationError::NoSuitableDevice));
}

#[test]
fn selection_takes_first_device_and_first_family_that_qualify() {
    let devices = vec![
        device(vec![family(QUEUE_COMPUTE, true)]),
        device(vec![
            family(QUEUE_GRAPHICS, false),
            family(QUEUE_TRANSFER, true),
            family(QUEUE_GRAPHICS | QUEUE_COMPUTE, true),
            family(QUEUE_GRAPHICS, true),
        ]),
        device(vec![family(QUEUE_GRAPHICS, true)]),
    ];
    assert_eq!(select_device(&devices), Ok((1, 2)));
    assert_eq!(find_presentable_family(&devices[1].families), Some(2));
    assert_eq!(find_presentable_family(&devices[0].families), None);
    assert_eq!(find_presentable_family(&devices[2].families), Some(0));
}

#[test]
fn queue_family_search_for_graphics_takes_first_with_graphics() {
    let families = vec![
        family(QUEUE_TRANSFER, false),
        family(QUEUE_GRAPHICS | QUEUE_COMPUTE, false),
        family(QUEUE_GRAPHICS, false),
    ];
    assert_eq!(get_queue_family_idx(QUEUE_GRAPHICS, &families), Ok(1));
}

#[test]
fn queue_family_search_for_compute_prefers_family_with_graphics() {
    let families = vec![
        family(QUEUE_COMPUTE, false),
        family(QUEUE_GRAPHICS, false),
        family(QUEUE_GRAPHICS | QUEUE_COMPUTE, false),
    ];
    assert_eq!(get_queue_family_idx(QUEUE_COMPUTE, &families), Ok(2));
    let families = vec![family(QUEUE_GRAPHICS, false), family(QUEUE_COMPUTE, false)];
    assert_eq!(get_queue_family_idx(QUEUE_COMPUTE, &families), Ok(1));
}

#[test]
fn queue_family_search_for_transfer_prefers_family_with_graphics_and_compute() {
    let families = vec![
        family(QUEUE_TRANSFER, false),
        family(QUEUE_TRANSFER | QUEUE_GRAPHICS, false),
        family(QUEUE_TRANSFER | QUEUE_GRAPHICS | QUEUE_COMPUTE, false),
    ];
    assert_eq!(get_queue_family_idx(QUEUE_TRANSFER, &families), Ok(2));
    let families = vec![
        family(QUEUE_GRAPHICS, false),
        family(QUEUE_TRANSFER, false),
        family(QUEUE_TRANSFER | QUEUE_GRAPHICS, false),
    ];
    assert_eq!(get_queue_family_idx(QUEUE_TRANSFER, &families), Ok(1));
}

#[test]
fn queue_family_search_fails_when_nothing_offers_the_flags() {
    let families = vec![family(QUEUE_GRAPHICS, true), family(QUEUE_TRANSFER, true)];
    assert_eq!(get_queue_family_idx(QUEUE_COMPUTE, &families), Err(NoCompatibleQueue));
    assert_eq!(
        get_queue_family_idx(QUEUE_GRAPHICS | QUEUE_TRANSFER, &families),
        Err(NoCompatibleQueue)
    );
    let none: Vec<QueueFamily> = Vec::new();
    assert_eq!(get_queue_family_idx(QUEUE_GRAPHICS, &none), Err(NoCompatibleQueue));
}

#[test]
fn queue_family_indices_default_to_none() {
    let indices = QueueFamilyIndices::default();
    assert_eq!(indices.graphics, None);
    assert_eq!(indices.compute, None);
    assert_eq!(indices.transfer, None);
}

#[test]
fn device_context_keeps_what_the_chosen_device_reports() {
    let devices = vec![
        device(vec![family(QUEUE_COMPUTE, true)]),
        PhysicalDevice {
            families: vec![
                family(QUEUE_GRAPHICS | QUEUE_COMPUTE | QUEUE_TRANSFER, true),
                family(QUEUE_COMPUTE, false),
            ],
            memory: types(&[MEMORY_DEVICE_LOCAL, MEMORY_HOST_VISIBLE | MEMORY_HOST_COHERENT]),
        },
    ];
    let dev = Device::new(devices, QUEUE_GRAPHICS).unwrap();
    assert_eq!(dev.physical_device, 1);
    assert_eq!(dev.queue_family_properties.len(), 2);
    assert_eq!(dev.queue_family_properties[1], family(QUEUE_COMPUTE, false));
    assert_eq!(dev.mem_properties.memory_types.len(), 2);
    assert_eq!(
        dev.queue_family_indices,
        QueueFamilyIndices { graphics: Some(0), compute: None, transfer: None }
    );
    assert_eq!(dev.queue_families_to_create(), vec![0]);
}

#[test]
fn device_context_gives_compute_and_transfer_distinct_families() {
    // Graphics presents on family 1 only; the compute search settles on
    // family 0, the transfer search on family 0 too, which compute has.
    let devices = vec![device(vec![
        family(QUEUE_GRAPHICS | QUEUE_COMPUTE | QUEUE_TRANSFER, false),
        family(QUEUE_GRAPHICS, true),
        family(QUEUE_TRANSFER, false),
    ])];
    let dev =
        Device::new(devices, QUEUE_GRAPHICS | QUEUE_COMPUTE | QUEUE_TRANSFER).unwrap();
    assert_eq!(
        dev.queue_family_indices,
        QueueFamilyIndices { graphics: Some(1), compute: Some(0), transfer: None }
    );
    assert_eq!(dev.queue_families_to_create(), vec![1, 0]);

    let devices = vec![device(vec![
        family(QUEUE_GRAPHICS | QUEUE_COMPUTE, true),
        family(QUEUE_TRANSFER, false),
    ])];
    let dev = Device::new(devices, QUEUE_GRAPHICS | QUEUE_COMPUTE | QUEUE_TRANSFER).unwrap();
    assert_eq!(
        dev.queue_family_indices,
        QueueFamilyIndices { graphics: Some(0), compute: None, transfer: Some(1) }
    );
    assert_eq!(dev.queue_families_to_create(), vec![0, 1]);
}

#[test]
fn device_context_ignores_roles_that_were_not_asked_for() {
    let devices = vec![device(vec![
        family(QUEUE_GRAPHICS, true),
        family(QUEUE_COMPUTE, false),
        family(QUEUE_TRANSFER, false),
    ])];
    let dev = Device::new(devices, QUEUE_GRAPHICS | QUEUE_TRANSFER).unwrap();
    assert_eq!(
        dev.queue_family_indices,
        QueueFamilyIndices { graphics: Some(0), compute: None, transfer: Some(2) }
    );
}

#[test]
fn memory_type_exact_match_wins_over_earlier_superset() {
    let props = types(&[
        MEMORY_HOST_VISIBLE | MEMORY_HOST_COHERENT | MEMORY_DEVICE_LOCAL,
        MEMORY_HOST_VISIBLE | MEMORY_HOST_COHERENT,
    ]);
    let flags = MEMORY_HOST_VISIBLE | MEMORY_HOST_COHERENT;
    assert_eq!(find_memorytype_index(&requirements(0b11), &props, flags), Some(1));
}

#[test]
fn memory_type_falls_back_to_first_superset() {
    let props = types(&[
        MEMORY_DEVICE_LOCAL,
        MEMORY_HOST_VISIBLE | MEMORY_HOST_COHERENT | 0x8,
        MEMORY_HOST_VISIBLE | MEMORY_HOST_COHERENT | MEMORY_DEVICE_LOCAL,
    ]);
    let flags = MEMORY_HOST_VISIBLE | MEMORY_HOST_COHERENT;
    assert_eq!(find_memorytype_index(&requirements(0b111), &props, flags), Some(1));
}

#[test]
fn memory_type_must_be_admitted_by_the_mask() {
    let props = types(&[MEMORY_DEVICE_LOCAL, MEMORY_DEVICE_LOCAL, MEMORY_DEVICE_LOCAL]);
    assert_eq!(find_memorytype_index(&requirements(0b100), &props, MEMORY_DEVICE_LOCAL), Some(2));
    assert_eq!(find_memorytype_index(&requirements(0b110), &props, MEMORY_DEVICE_LOCAL), Some(1));
    assert_eq!(find_memorytype_index(&requirements(0), &props, MEMORY_DEVICE_LOCAL), None);
    assert_eq!(find_memorytype_index(&requirements(0b1000), &props, MEMORY_DEVICE_LOCAL), None);
}

#[test]
fn memory_type_none_when_no_type_has_the_flags() {
    let props = types(&[MEMORY_DEVICE_LOCAL, MEMORY_HOST_VISIBLE]);
    let flags = MEMORY_HOST_VISIBLE | MEMORY_HOST_COHERENT;
    assert_eq!(find_memorytype_index(&requirements(0xFFFF_FFFF), &props, flags), None);
    let empty = types(&[]);
    assert_eq!(find_memorytype_index(&requirements(0xFFFF_FFFF), &empty, 0), None);
}

#[test]
fn memory_type_highest_bit_of_the_mask_counts() {
    let mut flags = vec![0u32; 32];
    flags[31] = MEMORY_DEVICE_LOCAL;
    let props = types(&flags);
    assert_eq!(
        find_memorytype_index(&requirements(0x8000_0000), &props, MEMORY_DEVICE_LOCAL),
        Some(31)
    );
    assert_eq!(
        find_memorytype_index(&requirements(0x7FFF_FFFF), &props, MEMORY_DEVICE_LOCAL),
        None
    );
}

#[test]
fn memory_type_search_with_a_predicate_of_the_caller() {
    let props = types(&[0b0001, 0b0110, 0b1000, 0b0100]);
    let disjoint = |property_flags: u32, flags: u32| property_flags & flags == 0;
    assert_eq!(
        find_memorytype_index_f(&requirements(0b1111), &props, 0b0001, disjoint),
        Some(1)
    );
    assert_eq!(
        find_memorytype_index_f(&requirements(0b1100), &props, 0b0001, disjoint),
        Some(2)
    );
    let never = |_: u32, _: u32| false;
    assert_eq!(find_memorytype_index_f(&requirements(0b1111), &props, 0, never), None);
}

#[test]
fn memory_locality_names_the_property_flags() {
    assert_eq!(memory_flags(MemoryLocality::HostVisibleCoherent), 0b110);
    assert_eq!(memory_flags(MemoryLocality::DeviceLocal), 0b001);
    let props = types(&[MEMORY_DEVICE_LOCAL, MEMORY_HOST_VISIBLE | MEMORY_HOST_COHERENT]);
    assert_eq!(
        memory_type_for(&requirements(0b11), &props, MemoryLocality::HostVisibleCoherent),
        Some(1)
    );
    assert_eq!(
        memory_type_for(&requirements(0b11), &props, MemoryLocality::DeviceLocal),
        Some(0)
    );
    assert_eq!(
        memory_type_for(&requirements(0b10), &props, MemoryLocality::DeviceLocal),
        None
    );
}

fn context(flags: &[u32]) -> Device {
    let devices = vec![PhysicalDevice {
        families: vec![family(QUEUE_GRAPHICS, true)],
        memory: types(flags),
    }];
    Device::new(devices, QUEUE_GRAPHICS).unwrap()
}

#[test]
fn buffer_is_bundled_with_its_memory() {
    let dev = context(&[MEMORY_DEVICE_LOCAL, MEMORY_HOST_VISIBLE | MEMORY_HOST_COHERENT]);
    let b = dev
        .create_buffer(Ok((11, 22)), &requirements(0b11), MemoryLocality::HostVisibleCoherent)
        .unwrap();
    assert_eq!(b.handle(), 11);
    assert_eq!(b.memory(), 22);
    assert_eq!(b.size(), 256);
    assert_eq!(b.memory_type(), 1);
    let b = dev
        .create_buffer(Ok((11, 22)), &requirements(0b11), MemoryLocality::DeviceLocal)
        .unwrap();
    assert_eq!(b.memory_type(), 0);
    let released = dev.destroy_buffer(b);
    assert_eq!(released.resource, 11);
    assert_eq!(released.memory, 22);
}

#[test]
fn image_is_bundled_with_its_memory() {
    let dev = context(&[MEMORY_HOST_VISIBLE, MEMORY_DEVICE_LOCAL | 0x10, MEMORY_DEVICE_LOCAL]);
    let i = dev
        .create_image(Ok((5, 6)), &requirements(0b111), MemoryLocality::DeviceLocal)
        .unwrap();
    assert_eq!(i.handle(), 5);
    assert_eq!(i.memory(), 6);
    assert_eq!(i.size(), 256);
    assert_eq!(i.memory_type(), 2);
    let released = dev.desroy_image(i);
    assert_eq!(released.resource, 5);
    assert_eq!(released.memory, 6);
}

#[test]
fn failed_allocation_is_resource_exhaustion() {
    let dev = context(&[MEMORY_DEVICE_LOCAL]);
    let local = MemoryLocality::DeviceLocal;
    let exhausted = Err(ErrorKind::ResourceExhaustion);
    assert_eq!(dev.create_buffer(Err(-1), &requirements(1), local), exhausted);
    assert_eq!(dev.create_buffer(Err(-2), &requirements(1), local), exhausted);
    assert_eq!(dev.create_buffer(Err(-10), &requirements(1), local), exhausted);
    assert_eq!(dev.create_buffer(Err(0), &requirements(1), local), exhausted);
    assert_eq!(dev.create_buffer(Err(-4), &requirements(1), local), Err(ErrorKind::DeviceLost));
    assert_eq!(dev.create_image(Err(-1), &requirements(1), local).err(), Some(ErrorKind::ResourceExhaustion));
    assert_eq!(dev.create_image(Err(-2), &requirements(1), local).err(), Some(ErrorKind::ResourceExhaustion));
    assert_eq!(dev.create_image(Err(-4), &requirements(1), local).err(), Some(ErrorKind::DeviceLost));
    assert_eq!(allocation_failure(-1), ErrorKind::ResourceExhaustion);
    assert_eq!(allocation_failure(-2), ErrorKind::ResourceExhaustion);
    assert_eq!(allocation_failure(-4), ErrorKind::DeviceLost);
    assert_eq!(allocation_failure(2), ErrorKind::ResourceExhaustion);
}

#[test]
fn no_bundle_without_resource_memory_or_memory_type() {
    let dev = context(&[MEMORY_DEVICE_LOCAL]);
    let local = MemoryLocality::DeviceLocal;
    let exhausted = Some(ErrorKind::ResourceExhaustion);
    assert_eq!(dev.create_buffer(Ok((0, 22)), &requirements(1), local).err(), exhausted);
    assert_eq!(dev.create_buffer(Ok((11, 0)), &requirements(1), local).err(), exhausted);
    assert_eq!(dev.create_buffer(Ok((11, 22)), &requirements(0), local).err(), exhausted);
    assert_eq!(
        dev.create_buffer(Ok((11, 22)), &requirements(1), MemoryLocality::HostVisibleCoherent)
            .err(),
        exhausted
    );
    assert_eq!(dev.create_image(Ok((0, 22)), &requirements(1), local).err(), exhausted);
    assert_eq!(dev.create_image(Ok((11, 0)), &requirements(1), local).err(), exhausted);
    assert_eq!(dev.create_image(Ok((11, 22)), &requirements(2), local).err(), exhausted);
    assert!(dev.create_image(Ok((11, 22)), &requirements(1), local).is_ok());
}

#[test]
fn no_compatible_queue_has_its_message() {
    let families = vec![family(QUEUE_GRAPHICS, true)];
    let e = get_queue_family_idx(QUEUE_COMPUTE, &families).unwrap_err();
    assert_eq!(e.message(), "No compatible queue foung");
}
