//! The bulk comparisons between what a physical device offers and what is required:
//! features and properties (limits and device type).
use vstd::prelude::*;

verus! {

/// Number of core Vulkan 1.0 device features (`VkPhysicalDeviceFeatures`), in the order
/// in which the structure declares them, `robustBufferAccess` first.
pub const FEATURE_COUNT: usize = 55;

pub const FEATURE_GEOMETRY_SHADER: usize = 4;

pub const FEATURE_TESSELLATION_SHADER: usize = 5;

pub const FEATURE_MULTI_DRAW_INDIRECT: usize = 9;

pub const FEATURE_DRAW_INDIRECT_FIRST_INSTANCE: usize = 10;

pub const FEATURE_ALPHA_TO_ONE: usize = 17;

pub const FEATURE_OCCLUSION_QUERY_PRECISE: usize = 23;

/// A set of core device features: `flags[i]` tells whether feature `i` is on.
#[derive(Clone, Copy, Debug)]
pub struct DeviceFeatures {
    pub flags: [bool; 55],
}

impl DeviceFeatures {
    /// Feature `i` is on.
    pub open spec fn has(self, i: int) -> bool {
        self.flags@[i]
    }

    /// Turns feature `i` on or off.
    pub fn set(self, i: usize, on: bool) -> (r: Self)
        requires
            i < FEATURE_COUNT,
        ensures
            r.flags@ == self.flags@.update(i as int, on),
    {
        let mut r = self;
        r.flags[i] = on;
        r
    }
}

impl Default for DeviceFeatures {
    /// No feature is on.
    fn default() -> (r: Self)
        ensures
            forall|i: int| 0 <= i < FEATURE_COUNT ==> !r.has(i),
    {
        DeviceFeatures { flags: [false; 55] }
    }
}

/// Every feature that `required` turns on is on in `have`.
pub open spec fn covers_features(have: DeviceFeatures, required: DeviceFeatures) -> bool {
    forall|i: int| 0 <= i < FEATURE_COUNT ==> #[trigger] required.has(i) ==> have.has(i)
}

/// Whether `have` supports every feature that `required` asks for.
pub fn satisifes_features(have: &DeviceFeatures, required: &DeviceFeatures) -> (r: bool)
    ensures
        r == covers_features(*have, *required),
        forall|i: int| 0 <= i < 55 && #[trigger] required.flags@[i] && !have.flags@[i] ==> !r,
        (forall|i: int| 0 <= i < 55 && #[trigger] required.flags@[i] ==> have.flags@[i]) ==> r,
{
    let r = check_features(have, required);
    proof {
        assert forall|i: int| 0 <= i < 55 && #[trigger] required.flags@[i] && !have.flags@[i] implies !r by {
            lemma_features_checked(*have, *required, i);
        }
        lemma_features_checked(*have, *required, 0);
    }
    r
}

/// Whether every feature `required` turns on is on in `have`.
fn check_features(have: &DeviceFeatures, required: &DeviceFeatures) -> (r: bool)
    ensures
        r == covers_features(*have, *required),
{
    let mut i: usize = 0;
    while i < FEATURE_COUNT
        invariant
            i <= FEATURE_COUNT,
            forall|j: int| 0 <= j < i ==> #[trigger] required.has(j) ==> have.has(j),
        decreases FEATURE_COUNT - i,
    {
        if required.flags[i] && !have.flags[i] {
            assert(required.has(i as int) && !have.has(i as int));
            return false;
        }
        i = i + 1;
    }
    true
}

/// Number of device limits kept: every `uint32_t` member of `VkPhysicalDeviceLimits`, in
/// the order the structure declares them (array members one entry per element). Each is a
/// maximum or a precision, so a device meets a required limit when its own is at least as
/// large.
pub const LIMIT_COUNT: usize = 78;

pub const LIMIT_MAX_IMAGE_DIMENSION_1D: usize = 0;

pub const LIMIT_MAX_IMAGE_DIMENSION_2D: usize = 1;

pub const LIMIT_MAX_IMAGE_DIMENSION_3D: usize = 2;

pub const LIMIT_MAX_IMAGE_DIMENSION_CUBE: usize = 3;

pub const LIMIT_MAX_IMAGE_ARRAY_LAYERS: usize = 4;

pub const LIMIT_MAX_TEXEL_BUFFER_ELEMENTS: usize = 5;

pub const LIMIT_MAX_UNIFORM_BUFFER_RANGE: usize = 6;

pub const LIMIT_MAX_STORAGE_BUFFER_RANGE: usize = 7;

pub const LIMIT_MAX_PUSH_CONSTANTS_SIZE: usize = 8;

pub const LIMIT_MAX_MEMORY_ALLOCATION_COUNT: usize = 9;

pub const LIMIT_MAX_SAMPLER_ALLOCATION_COUNT: usize = 10;

pub const LIMIT_MAX_BOUND_DESCRIPTOR_SETS: usize = 11;

pub const LIMIT_MAX_PER_STAGE_DESCRIPTOR_SAMPLERS: usize = 12;

pub const LIMIT_MAX_PER_STAGE_DESCRIPTOR_UNIFORM_BUFFERS: usize = 13;

pub const LIMIT_MAX_PER_STAGE_DESCRIPTOR_STORAGE_BUFFERS: usize = 14;

pub const LIMIT_MAX_PER_STAGE_DESCRIPTOR_SAMPLED_IMAGES: usize = 15;

pub const LIMIT_MAX_PER_STAGE_DESCRIPTOR_STORAGE_IMAGES: usize = 16;

pub const LIMIT_MAX_PER_STAGE_DESCRIPTOR_INPUT_ATTACHMENTS: usize = 17;

pub const LIMIT_MAX_PER_STAGE_RESOURCES: usize = 18;

pub const LIMIT_MAX_DESCRIPTOR_SET_SAMPLERS: usize = 19;

pub const LIMIT_MAX_DESCRIPTOR_SET_UNIFORM_BUFFERS: usize = 20;

pub const LIMIT_MAX_DESCRIPTOR_SET_UNIFORM_BUFFERS_DYNAMIC: usize = 21;

pub const LIMIT_MAX_DESCRIPTOR_SET_STORAGE_BUFFERS: usize = 22;

pub const LIMIT_MAX_DESCRIPTOR_SET_STORAGE_BUFFERS_DYNAMIC: usize = 23;

pub const LIMIT_MAX_DESCRIPTOR_SET_SAMPLED_IMAGES: usize = 24;

pub const LIMIT_MAX_DESCRIPTOR_SET_STORAGE_IMAGES: usize = 25;

pub const LIMIT_MAX_DESCRIPTOR_SET_INPUT_ATTACHMENTS: usize = 26;

pub const LIMIT_MAX_VERTEX_INPUT_ATTRIBUTES: usize = 27;

pub const LIMIT_MAX_VERTEX_INPUT_BINDINGS: usize = 28;

pub const LIMIT_MAX_VERTEX_INPUT_ATTRIBUTE_OFFSET: usize = 29;

pub const LIMIT_MAX_VERTEX_INPUT_BINDING_STRIDE: usize = 30;

pub const LIMIT_MAX_VERTEX_OUTPUT_COMPONENTS: usize = 31;

pub const LIMIT_MAX_TESSELLATION_GENERATION_LEVEL: usize = 32;

pub const LIMIT_MAX_TESSELLATION_PATCH_SIZE: usize = 33;

pub const LIMIT_MAX_TESSELLATION_CONTROL_PER_VERTEX_INPUT_COMPONENTS: usize = 34;

pub const LIMIT_MAX_TESSELLATION_CONTROL_PER_VERTEX_OUTPUT_COMPONENTS: usize = 35;

pub const LIMIT_MAX_TESSELLATION_CONTROL_PER_PATCH_OUTPUT_COMPONENTS: usize = 36;

pub const LIMIT_MAX_TESSELLATION_CONTROL_TOTAL_OUTPUT_COMPONENTS: usize = 37;

pub const LIMIT_MAX_TESSELLATION_EVALUATION_INPUT_COMPONENTS: usize = 38;

pub const LIMIT_MAX_TESSELLATION_EVALUATION_OUTPUT_COMPONENTS: usize = 39;

pub const LIMIT_MAX_GEOMETRY_SHADER_INVOCATIONS: usize = 40;

pub const LIMIT_MAX_GEOMETRY_INPUT_COMPONENTS: usize = 41;

pub const LIMIT_MAX_GEOMETRY_OUTPUT_COMPONENTS: usize = 42;

pub const LIMIT_MAX_GEOMETRY_OUTPUT_VERTICES: usize = 43;

pub const LIMIT_MAX_GEOMETRY_TOTAL_OUTPUT_COMPONENTS: usize = 44;

pub const LIMIT_MAX_FRAGMENT_INPUT_COMPONENTS: usize = 45;

pub const LIMIT_MAX_FRAGMENT_OUTPUT_ATTACHMENTS: usize = 46;

pub const LIMIT_MAX_FRAGMENT_DUAL_SRC_ATTACHMENTS: usize = 47;

pub const LIMIT_MAX_FRAGMENT_COMBINED_OUTPUT_RESOURCES: usize = 48;

pub const LIMIT_MAX_COMPUTE_SHARED_MEMORY_SIZE: usize = 49;

pub const LIMIT_MAX_COMPUTE_WORK_GROUP_COUNT_X: usize = 50;

pub const LIMIT_MAX_COMPUTE_WORK_GROUP_COUNT_Y: usize = 51;

pub const LIMIT_MAX_COMPUTE_WORK_GROUP_COUNT_Z: usize = 52;

pub const LIMIT_MAX_COMPUTE_WORK_GROUP_INVOCATIONS: usize = 53;

pub const LIMIT_MAX_COMPUTE_WORK_GROUP_SIZE_X: usize = 54;

pub const LIMIT_MAX_COMPUTE_WORK_GROUP_SIZE_Y: usize = 55;

pub const LIMIT_MAX_COMPUTE_WORK_GROUP_SIZE_Z: usize = 56;

pub const LIMIT_SUB_PIXEL_PRECISION_BITS: usize = 57;

pub const LIMIT_SUB_TEXEL_PRECISION_BITS: usize = 58;

pub const LIMIT_MIPMAP_PRECISION_BITS: usize = 59;

pub const LIMIT_MAX_DRAW_INDEXED_INDEX_VALUE: usize = 60;

pub const LIMIT_MAX_DRAW_INDIRECT_COUNT: usize = 61;

pub const LIMIT_MAX_VIEWPORTS: usize = 62;

pub const LIMIT_MAX_VIEWPORT_DIMENSIONS_X: usize = 63;

pub const LIMIT_MAX_VIEWPORT_DIMENSIONS_Y: usize = 64;

pub const LIMIT_VIEWPORT_SUB_PIXEL_BITS: usize = 65;

pub const LIMIT_MAX_TEXEL_OFFSET: usize = 66;

pub const LIMIT_MAX_TEXEL_GATHER_OFFSET: usize = 67;

pub const LIMIT_SUB_PIXEL_INTERPOLATION_OFFSET_BITS: usize = 68;

pub const LIMIT_MAX_FRAMEBUFFER_WIDTH: usize = 69;

pub const LIMIT_MAX_FRAMEBUFFER_HEIGHT: usize = 70;

pub const LIMIT_MAX_FRAMEBUFFER_LAYERS: usize = 71;

pub const LIMIT_MAX_COLOR_ATTACHMENTS: usize = 72;

pub const LIMIT_MAX_SAMPLE_MASK_WORDS: usize = 73;

pub const LIMIT_MAX_CLIP_DISTANCES: usize = 74;

pub const LIMIT_MAX_CULL_DISTANCES: usize = 75;

pub const LIMIT_MAX_COMBINED_CLIP_AND_CULL_DISTANCES: usize = 76;

pub const LIMIT_DISCRETE_QUEUE_PRIORITIES: usize = 77;

/// `VK_PHYSICAL_DEVICE_TYPE_OTHER`: as a requirement, any device type.
pub const DEVICE_TYPE_OTHER: i32 = 0;

pub const DEVICE_TYPE_INTEGRATED_GPU: i32 = 1;

pub const DEVICE_TYPE_DISCRETE_GPU: i32 = 2;

pub const DEVICE_TYPE_VIRTUAL_GPU: i32 = 3;

pub const DEVICE_TYPE_CPU: i32 = 4;

/// The properties of a physical device that device selection reads: its type and its
/// limits (indexed by the `LIMIT_*` constants).
#[derive(Clone, Copy, Debug)]
pub struct DeviceProperties {
    pub device_type: i32,
    pub limits: [u32; 78],
}

impl DeviceProperties {
    /// Limit `i`.
    pub open spec fn limit(self, i: int) -> u32 {
        self.limits@[i]
    }

    /// Sets limit `i` to `value`.
    pub fn with_limit(self, i: usize, value: u32) -> (r: Self)
        requires
            i < LIMIT_COUNT,
        ensures
            r.device_type == self.device_type,
            r.limits@ == self.limits@.update(i as int, value),
    {
        let mut r = self;
        r.limits[i] = value;
        r
    }

    /// Sets the device type.
    pub fn with_device_type(self, device_type: i32) -> (r: Self)
        ensures
            r.device_type == device_type,
            r.limits@ == self.limits@,
    {
        DeviceProperties { device_type, limits: self.limits }
    }
}

impl Default for DeviceProperties {
    /// Type `OTHER` and every limit zero: a requirement that any device meets.
    fn default() -> (r: Self)
        ensures
            r.device_type == DEVICE_TYPE_OTHER,
            forall|i: int| 0 <= i < LIMIT_COUNT ==> r.limit(i) == 0,
    {
        DeviceProperties { device_type: DEVICE_TYPE_OTHER, limits: [0u32; 78] }
    }
}

/// `have` meets the properties `required` asks for: every limit is at least the required
/// one, and the device type is the required one unless `OTHER` is required.
pub open spec fn meets_properties(have: DeviceProperties, required: DeviceProperties) -> bool {
    &&& forall|i: int| 0 <= i < LIMIT_COUNT ==> #[trigger] have.limit(i) >= required.limit(i)
    &&& (required.device_type == DEVICE_TYPE_OTHER || have.device_type == required.device_type)
}

/// Whether `have` meets the limits and device type that `required` asks for.
pub fn satisfies_properties(have: &DeviceProperties, required: &DeviceProperties) -> (r: bool)
    ensures
        r == meets_properties(*have, *required),
        forall|i: int| 0 <= i < 78 && #[trigger] have.limits@[i] < required.limits@[i] ==> !r,
        required.device_type != 0 && have.device_type != required.device_type ==> !r,
        (forall|i: int| 0 <= i < 78 ==> #[trigger] have.limits@[i] >= required.limits@[i])
            && (required.device_type == 0 || have.device_type == required.device_type) ==> r,
{
    let r = check_properties(have, required);
    proof {
        assert forall|i: int| 0 <= i < 78 && #[trigger] have.limits@[i] < required.limits@[i] implies !r by {
            lemma_properties_checked(*have, *required, i);
        }
        lemma_properties_checked(*have, *required, 0);
    }
    r
}

/// Whether `have` meets the limits and device type that `required` asks for.
fn check_properties(have: &DeviceProperties, required: &DeviceProperties) -> (r: bool)
    ensures
        r == meets_properties(*have, *required),
{
    let mut i: usize = 0;
    while i < LIMIT_COUNT
        invariant
            i <= LIMIT_COUNT,
            forall|j: int| 0 <= j < i ==> #[trigger] have.limit(j) >= required.limit(j),
        decreases LIMIT_COUNT - i,
    {
        if have.limits[i] < required.limits[i] {
            assert(have.limit(i as int) < required.limit(i as int));
            return false;
        }
        i = i + 1;
    }
    required.device_type == DEVICE_TYPE_OTHER || have.device_type == required.device_type
}

/// A required feature that a device lacks makes the feature check fail, for each of the
/// core features; when the device has every required feature, the check holds.
pub proof fn lemma_features_checked(have: DeviceFeatures, required: DeviceFeatures, i: int)
    ensures
        0 <= i < 55 && required.flags@[i] && !have.flags@[i] ==> !covers_features(have, required),
        (forall|j: int| 0 <= j < 55 && #[trigger] required.flags@[j] ==> have.flags@[j]) ==> covers_features(have, required),
{
    if 0 <= i < 55 && required.flags@[i] && !have.flags@[i] {
        assert(required.has(i) && !have.has(i));
    }
    if forall|j: int| 0 <= j < 55 && #[trigger] required.flags@[j] ==> have.flags@[j] {
        assert forall|j: int| 0 <= j < FEATURE_COUNT && #[trigger] required.has(j) implies have.has(j) by {
            assert(required.flags@[j] ==> have.flags@[j]);
        }
    }
}

/// A limit below the required one, or (when a device type other than `OTHER` is required)
/// another device type, makes the property check fail; a device at or above every required
/// limit and of the required type (or any type, when `OTHER` is required) passes it.
pub proof fn lemma_properties_checked(have: DeviceProperties, required: DeviceProperties, i: int)
    ensures
        0 <= i < 78 && have.limits@[i] < required.limits@[i] ==> !meets_properties(have, required),
        required.device_type != 0 && have.device_type != required.device_type ==> !meets_properties(have, required),
        (forall|j: int| 0 <= j < 78 ==> #[trigger] have.limits@[j] >= required.limits@[j])
            && (required.device_type == 0 || have.device_type == required.device_type)
            ==> meets_properties(have, required),
{
    if 0 <= i < 78 && have.limits@[i] < required.limits@[i] {
        assert(have.limit(i) < required.limit(i));
    }
    if forall|j: int| 0 <= j < 78 ==> #[trigger] have.limits@[j] >= required.limits@[j] {
        assert forall|j: int| 0 <= j < LIMIT_COUNT implies #[trigger] have.limit(j) >= required.limit(j) by {
            assert(have.limits@[j] >= required.limits@[j]);
        }
    }
}

} // verus!
