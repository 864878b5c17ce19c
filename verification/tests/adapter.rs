use vki::adapter::{adapter_extensions, sort_format_properties, version, AdapterProperties};
use vki::device::QueueFamilyProperties;
use vki::resources::{Adapter, DeviceDescriptor, Instance};
use vki::types::{PowerPreference, RequestAdapterOptions};
use vki::vk;

#[test]
fn versions_unpack() {
    // 1.1.121
    let v = (1 << 22) | (1 << 12) | 121;
    assert_eq!(version(v), (1, 1, 121));
}

#[test]
fn driver_versions_follow_the_vendor() {
    let nvidia = AdapterProperties::from_raw(String::from("gpu"), 0, (430 << 22) | (50 << 14) | (3 << 6), 4318, 1, 2);
    assert_eq!(nvidia.driver_version_parts(), vec![430, 50, 3, 3]);
    let intel = AdapterProperties::from_raw(String::from("igpu"), 0, (100 << 14) | 8545, 32902, 1, 1);
    assert_eq!(intel.driver_version_parts(), vec![100, 8545 & 0x3ff]);
    let other = AdapterProperties::from_raw(String::from("other"), (1 << 22) | (2 << 12) | 3, (19 << 22) | (1 << 12) | 2, 4098, 1, 2);
    assert_eq!(other.driver_version_parts(), vec![19, 1, 2]);
    assert_eq!(other.api_version, (1, 2, 3));
}

#[test]
fn instance_request_adapter() {
    let types = [vk::PHYSICAL_DEVICE_TYPE_INTEGRATED_GPU, vk::PHYSICAL_DEVICE_TYPE_DISCRETE_GPU];
    let high = RequestAdapterOptions::new().high_performance();
    let low = RequestAdapterOptions::new().low_power();
    assert_eq!(high.power_preference, PowerPreference::HighPerformance);
    assert_eq!(Instance { handle: 1 }.request_adaptor(&types, high).unwrap(), 1);
    assert_eq!(Instance { handle: 1 }.request_adaptor(&types, low).unwrap(), 0);
    assert_eq!(Instance { handle: 1 }.request_adaptor(&[4, 4], high).unwrap(), 0);
}

#[test]
fn instance_enumerate_adapters() {
    let err = Instance { handle: 1 }.request_adaptor(&[], RequestAdapterOptions::new()).unwrap_err();
    match err.kind {
        vki::error::ErrorKind::Message(m) => assert_eq!(m.to_lowercase(), "no adapters were found"),
        other => panic!("unexpected {:?}", other),
    }
}

#[test]
fn format_properties_are_sorted_by_format() {
    let props = vec![(1000054000, 'a'), (50, 'b'), (9, 'c'), (50, 'd'), (0, 'e')];
    let sorted = sort_format_properties(&props);
    assert_eq!(sorted, vec![(0, 'e'), (9, 'c'), (50, 'b'), (50, 'd'), (1000054000, 'a')]);
    assert!(adapter_extensions(vk::TRUE).anisotropic_filtering);
    assert!(!adapter_extensions(0).anisotropic_filtering);
}

#[test]
fn instance_create_device() {
    let instance = Instance { handle: 1 };
    let options = RequestAdapterOptions::new();
    let types = [vk::PHYSICAL_DEVICE_TYPE_DISCRETE_GPU];
    let index = instance.request_adaptor(&types, options).unwrap();
    let adapter = Adapter {
        physical_device: 10 + index as u64,
        name: String::from("gpu"),
        extensions: adapter_extensions(vk::TRUE),
        device_type: types[index],
    };
    let families = [
        QueueFamilyProperties { queue_flags: vk::QUEUE_TRANSFER, queue_count: 2 },
        QueueFamilyProperties { queue_flags: vk::QUEUE_GRAPHICS | vk::QUEUE_COMPUTE | vk::QUEUE_TRANSFER, queue_count: 1 },
    ];
    let descriptor = DeviceDescriptor { extensions: adapter.extensions, surface_support: None };
    let plan = adapter.create_device(&descriptor, &families, None, 1).unwrap();
    assert_eq!(plan.queue_family_index, 1);
    assert!(!plan.enable_swapchain);
    assert!(plan.fill_mode_non_solid);
}
