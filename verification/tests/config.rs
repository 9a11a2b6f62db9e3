use raw_window_handle::{RawDisplayHandle, RawWindowHandle, XlibDisplayHandle, XlibWindowHandle};
use vinit::base::BaseConfig;
use vinit::command::{CommandPool, CommandPoolPlan};
use vinit::device::{DeviceInfo, MemoryHeap, PhysicalDeviceInfo};
use vinit::families::{Compute, Families, Graphics};
use vinit::mass::{DeviceFeatures, DeviceProperties};
use vinit::device::Device;
use vinit::instance::Instance;
use vinit::swapchain::{Swapchain, FORMAT_B8G8R8A8_SRGB};

fn window() -> (RawWindowHandle, RawDisplayHandle) {
    (
        RawWindowHandle::Xlib(XlibWindowHandle::new(1)),
        RawDisplayHandle::Xlib(XlibDisplayHandle::new(None, 0)),
    )
}

#[test]
fn pools_accumulate_per_family() {
    let config = BaseConfig::default()
        .with(Instance::default())
        .with(Device::default())
        .with(CommandPool::graphics())
        .with(CommandPool::graphics().flags(1))
        .with(CommandPool::graphics().flags(2))
        .with(CommandPool::compute())
        .with(CommandPool::transfer());
    assert_eq!(config.pools.graphics.len(), 3);
    assert_eq!(config.pools.graphics[1].flags, 1);
    assert_eq!(config.pools.graphics[2].flags, 2);
    assert_eq!(config.pools.compute.len(), 1);
    assert_eq!(config.pools.transfer.len(), 1);
    let q = config.device_constraints.required_queues;
    assert!(q.graphics && q.compute && q.transfer);
    assert!(!q.sparse && !q.protected);
}

#[test]
fn ten_graphics_pools() {
    let mut count = 0;
    let config = BaseConfig::default()
        .with(Instance::default())
        .with(Device::default())
        .with(CommandPool::graphics())
        .with(CommandPool::graphics())
        .with(CommandPool::graphics())
        .with(CommandPool::graphics())
        .with(CommandPool::graphics())
        .with(CommandPool::graphics())
        .with(CommandPool::graphics())
        .with(CommandPool::graphics())
        .with(CommandPool::graphics())
        .with(CommandPool::graphics());
    count += config.pools.graphics.len();
    assert_eq!(count, 10);
}

#[test]
fn items_are_kept_as_given() {
    let config = BaseConfig::default()
        .with(Instance::default().api_version(1, 2, 0))
        .with(Device::default().prefer_best(false).require_discrete(true));
    assert_eq!(config.instance.api_version, (1, 2, 0));
    assert!(!config.device.prefer_best);
    assert!(config.device.require_discrete);
    assert!(!config.device_constraints.required_queues.any_required());
    assert!(config.device_constraints.required_swapchain.is_none());
    assert!(config.instance_constraints.required_surface.is_none());
}

#[test]
fn swapchain_sets_constraints() {
    let (w, d) = window();
    let config = BaseConfig::default()
        .with(Instance::default())
        .with(Device::default())
        .with(Swapchain::new(w, d).img_format(vec![FORMAT_B8G8R8A8_SRGB]))
        .with(CommandPool::sparse());
    let req = config.device_constraints.required_swapchain.as_ref().unwrap();
    assert_eq!(req.formats, vec![FORMAT_B8G8R8A8_SRGB]);
    assert_eq!(req.present_modes, config.swapchain.present_modes);
    assert_eq!(config.instance_constraints.required_surface, Some(d));
    assert!(config.device_constraints.required_queues.sparse);
    assert_eq!(config.pools.sparse.len(), 1);
}

fn device_with_indices(indices: Families<Option<u32>>) -> DeviceInfo {
    DeviceInfo {
        device: 9,
        physical: PhysicalDeviceInfo {
            physical_device: 1,
            properties: DeviceProperties::default(),
            enabled_properties: DeviceProperties::default(),
            supported_features: DeviceFeatures::default(),
            enabled_features: DeviceFeatures::default(),
            supported_extensions: Vec::new(),
            enabled_extensions: Vec::new(),
            memory_heaps: [MemoryHeap { size: 0, flags: 0 }; 16],
            memory_heap_count: 0,
            queue_families_indices: indices,
        },
        queue_handles: Families { graphics: Some(100), compute: Some(101), transfer: None, sparse: None, protected: None },
    }
}

#[test]
fn pools_are_planned_in_order_with_their_flags() {
    let config = BaseConfig::default()
        .with(Instance::default())
        .with(Device::default())
        .with(CommandPool::graphics().flags(1))
        .with(CommandPool::compute().flags(4))
        .with(CommandPool::graphics().flags(2))
        .with(CommandPool::graphics());
    let device = device_with_indices(Families { graphics: Some(3), compute: Some(5), transfer: None, sparse: None, protected: None });
    let graphics = CommandPool::<Graphics>::plan_all(&config.pools.graphics, &device);
    assert_eq!(
        graphics,
        vec![
            CommandPoolPlan { flags: 1, queue_family_index: 3 },
            CommandPoolPlan { flags: 2, queue_family_index: 3 },
            CommandPoolPlan { flags: 0, queue_family_index: 3 },
        ]
    );
    let compute = CommandPool::<Compute>::plan_all(&config.pools.compute, &device);
    assert_eq!(compute, vec![CommandPoolPlan { flags: 4, queue_family_index: 5 }]);
}
