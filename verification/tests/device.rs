use vinit::device::{Device, MemoryHeap, PhysicalDeviceInfo, MEMORY_HEAP_DEVICE_LOCAL_BIT};
use vinit::families::{Families, Graphics};
use vinit::mass::{
    satisfies_properties, satisifes_features, DeviceFeatures, DeviceProperties,
    DEVICE_TYPE_DISCRETE_GPU, DEVICE_TYPE_INTEGRATED_GPU, FEATURE_ALPHA_TO_ONE,
    FEATURE_DRAW_INDIRECT_FIRST_INSTANCE, FEATURE_GEOMETRY_SHADER, FEATURE_OCCLUSION_QUERY_PRECISE,
    FEATURE_TESSELLATION_SHADER, LIMIT_MAX_COMPUTE_SHARED_MEMORY_SIZE,
    LIMIT_MAX_COMPUTE_WORK_GROUP_COUNT_Z, LIMIT_MAX_COMPUTE_WORK_GROUP_INVOCATIONS,
    LIMIT_MAX_FRAGMENT_COMBINED_OUTPUT_RESOURCES, LIMIT_MAX_FRAMEBUFFER_WIDTH,
    LIMIT_MAX_IMAGE_DIMENSION_2D,
};
use vinit::InitError;

const GIB: u64 = 1 << 30;

fn device_info(handle: u64, device_type: i32, vram_gib: u64, dim2d: u32) -> PhysicalDeviceInfo {
    let mut heaps = [MemoryHeap { size: 0, flags: 0 }; 16];
    heaps[0] = MemoryHeap { size: vram_gib * GIB, flags: MEMORY_HEAP_DEVICE_LOCAL_BIT };
    heaps[1] = MemoryHeap { size: 64 * GIB, flags: 0 };
    PhysicalDeviceInfo {
        physical_device: handle,
        properties: DeviceProperties::default()
            .with_device_type(device_type)
            .with_limit(LIMIT_MAX_IMAGE_DIMENSION_2D, dim2d),
        enabled_properties: DeviceProperties::default(),
        supported_features: DeviceFeatures::default(),
        enabled_features: DeviceFeatures::default(),
        supported_extensions: vec!["VK_KHR_swapchain".to_string()],
        enabled_extensions: Vec::new(),
        memory_heaps: heaps,
        memory_heap_count: 2,
        queue_families_indices: Families { graphics: Some(0), compute: Some(1), transfer: Some(1), sparse: None, protected: None },
    }
}

#[test]
fn feature_requirements() {
    let have = DeviceFeatures::default().set(FEATURE_GEOMETRY_SHADER, true).set(FEATURE_ALPHA_TO_ONE, true);
    let req = DeviceFeatures::default().set(FEATURE_ALPHA_TO_ONE, true);
    assert!(satisifes_features(&have, &req));
    assert!(satisifes_features(&have, &DeviceFeatures::default()));
    let req2 = req.set(FEATURE_OCCLUSION_QUERY_PRECISE, true);
    assert!(!satisifes_features(&have, &req2));
}

#[test]
fn property_requirements() {
    let have = DeviceProperties::default()
        .with_device_type(DEVICE_TYPE_INTEGRATED_GPU)
        .with_limit(LIMIT_MAX_IMAGE_DIMENSION_2D, 16384);
    assert!(satisfies_properties(&have, &DeviceProperties::default()));
    let impossible = DeviceProperties::default().with_limit(LIMIT_MAX_IMAGE_DIMENSION_2D, u32::MAX);
    assert!(!satisfies_properties(&have, &impossible));
    let discrete = DeviceProperties::default().with_device_type(DEVICE_TYPE_DISCRETE_GPU);
    assert!(!satisfies_properties(&have, &discrete));
    let z = DeviceProperties::default().with_limit(LIMIT_MAX_COMPUTE_WORK_GROUP_COUNT_Z, 1);
    assert!(!satisfies_properties(&have, &z));
}

#[test]
fn score_exact_value() {
    let mut d = device_info(1, DEVICE_TYPE_DISCRETE_GPU, 8, 16384);
    d.properties = d
        .properties
        .with_limit(LIMIT_MAX_COMPUTE_SHARED_MEMORY_SIZE, 32768)
        .with_limit(LIMIT_MAX_COMPUTE_WORK_GROUP_INVOCATIONS, 1024)
        .with_limit(LIMIT_MAX_FRAMEBUFFER_WIDTH, 16384);
    d.supported_features = DeviceFeatures::default()
        .set(FEATURE_GEOMETRY_SHADER, true)
        .set(FEATURE_TESSELLATION_SHADER, true)
        .set(FEATURE_DRAW_INDIRECT_FIRST_INSTANCE, true);
    // log2(8192 MiB) = 13, 32 + 10 + 16 + 16 from limits, 50 each for geometry and tessellation.
    assert_eq!(d.score(), 187);
}

#[test]
fn score_caps_limits_and_reads_only_counted_heaps() {
    let mut d = device_info(1, DEVICE_TYPE_DISCRETE_GPU, 0, 0);
    d.properties = d.properties.with_limit(LIMIT_MAX_COMPUTE_SHARED_MEMORY_SIZE, 10_000_000);
    assert_eq!(d.score(), 100);
    d.memory_heaps[2] = MemoryHeap { size: 4 * GIB, flags: MEMORY_HEAP_DEVICE_LOCAL_BIT };
    assert_eq!(d.score(), 100);
    d.memory_heap_count = 40;
    // 4096 MiB now counts: log2 is 12.
    assert_eq!(d.score(), 112);
}

#[test]
fn select_prefers_best_and_last_on_tie() {
    let a = device_info(1, DEVICE_TYPE_INTEGRATED_GPU, 2, 8000);
    let b = device_info(2, DEVICE_TYPE_DISCRETE_GPU, 8, 16000);
    let c = device_info(3, DEVICE_TYPE_DISCRETE_GPU, 8, 16000);
    let chosen = Device::default().select(vec![a, b, c]).unwrap();
    assert_eq!(chosen.physical_device, 3);
}

#[test]
fn select_prefers_worst_and_first_on_tie() {
    let a = device_info(1, DEVICE_TYPE_DISCRETE_GPU, 8, 16000);
    let b = device_info(2, DEVICE_TYPE_INTEGRATED_GPU, 2, 8000);
    let c = device_info(3, DEVICE_TYPE_INTEGRATED_GPU, 2, 8000);
    let chosen = Device::default().prefer_best(false).select(vec![a, b, c]).unwrap();
    assert_eq!(chosen.physical_device, 2);
}

#[test]
fn select_applies_requirements() {
    let a = device_info(1, DEVICE_TYPE_INTEGRATED_GPU, 16, 16000);
    let b = device_info(2, DEVICE_TYPE_DISCRETE_GPU, 2, 8000);
    let d = Device::default().require_discrete(true);
    assert_eq!(d.select(vec![a.clone(), b.clone()]).unwrap().physical_device, 2);
    let d = Device::default().require_extensions(vec!["VK_KHR_ray_query".to_string()]);
    assert!(d.select(vec![a.clone(), b.clone()]).is_none());
    let d = Device::default().require_extensions(vec!["VK_KHR_swapchain".to_string()]);
    assert_eq!(d.select(vec![a.clone(), b.clone()]).unwrap().physical_device, 1);
    let d = Device::default().require_features(DeviceFeatures::default().set(FEATURE_GEOMETRY_SHADER, true));
    assert!(d.select(vec![a.clone(), b.clone()]).is_none());
    let d = Device::default()
        .require_properties(DeviceProperties::default().with_limit(LIMIT_MAX_IMAGE_DIMENSION_2D, 10000));
    assert_eq!(d.select(vec![a.clone(), b.clone()]).unwrap().physical_device, 1);
    let mut sparse = Families::default();
    sparse.set::<vinit::families::Sparse>(true);
    let d = Device::default().require_queues(sparse);
    assert!(d.select(vec![a, b]).is_none());
    assert!(Device::default().select(Vec::new()).is_none());
}

#[test]
fn plan_requires_queue_families_and_lists_indices() {
    let a = device_info(1, DEVICE_TYPE_DISCRETE_GPU, 8, 16000);
    let mut req: Families<bool> = Families::default();
    req.set::<Graphics>(true);
    req.set::<vinit::families::Transfer>(true);
    let plan = Device::default().plan(req, vec![a.clone()]).unwrap();
    assert_eq!(plan.physical.physical_device, 1);
    assert_eq!(plan.queue_family_indices.graphics, Some(0));
    assert_eq!(plan.queue_family_indices.transfer, Some(1));
    assert_eq!(plan.queue_family_indices.compute, None);
    let mut idx = plan.queue_create_indices.clone();
    idx.sort();
    assert_eq!(idx, vec![0, 1]);

    let mut protected: Families<bool> = Families::default();
    protected.set::<vinit::families::Protected>(true);
    let err = Device::default().plan(protected, vec![a]).unwrap_err();
    assert_eq!(err, InitError::FeatureNotPresent);
}

#[test]
fn every_limit_can_be_required() {
    let have = DeviceProperties::default().with_limit(LIMIT_MAX_FRAGMENT_COMBINED_OUTPUT_RESOURCES, 8);
    let required = DeviceProperties::default().with_limit(LIMIT_MAX_FRAGMENT_COMBINED_OUTPUT_RESOURCES, 1235);
    assert!(!satisfies_properties(&have, &required));
    let enough = DeviceProperties::default().with_limit(LIMIT_MAX_FRAGMENT_COMBINED_OUTPUT_RESOURCES, 4096);
    assert!(satisfies_properties(&enough, &required));
}

#[test]
fn required_extensions_are_kept_once() {
    let d = Device::default().require_extensions(vec![
        "VK_KHR_swapchain".to_string(),
        "VK_KHR_maintenance1".to_string(),
        "VK_KHR_swapchain".to_string(),
    ]);
    assert_eq!(d.required_extensions, vec!["VK_KHR_swapchain".to_string(), "VK_KHR_maintenance1".to_string()]);
}
