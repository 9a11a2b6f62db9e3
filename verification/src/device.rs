//! Logical device configuration and physical device selection.
use vstd::prelude::*;
use crate::families::{Families, Family};
use crate::InitError;
use crate::command::{CommandPool, CommandPoolInfo};
use crate::families::{Compute, Graphics, Protected, Sparse, Transfer};
use crate::base::BaseConfig;
use crate::{Absent, Apply, Present, Store};
use crate::instance::{Instance, InstanceInfo};
use crate::swapchain::{Swapchain, SwapchainInfo};
use crate::swapchain::SwapchainRequirements;
use crate::mass::{
    covers_features, meets_properties, satisfies_properties, satisifes_features,
    DeviceFeatures, DeviceProperties, DEVICE_TYPE_DISCRETE_GPU, FEATURE_GEOMETRY_SHADER,
    FEATURE_MULTI_DRAW_INDIRECT, FEATURE_TESSELLATION_SHADER, LIMIT_MAX_COMPUTE_SHARED_MEMORY_SIZE,
    LIMIT_MAX_COMPUTE_WORK_GROUP_INVOCATIONS, LIMIT_MAX_FRAMEBUFFER_WIDTH,
    LIMIT_MAX_IMAGE_DIMENSION_2D,
};

verus! {

/// `VK_MAX_MEMORY_HEAPS`.
pub const MAX_MEMORY_HEAPS: usize = 16;

/// `VK_MEMORY_HEAP_DEVICE_LOCAL_BIT`.
pub const MEMORY_HEAP_DEVICE_LOCAL_BIT: u32 = 0x1;

/// Bytes in a mebibyte.
pub const MIB: u64 = 1048576;

/// A memory heap of a physical device: its size in bytes and its flags.
#[derive(Clone, Copy, Debug)]
pub struct MemoryHeap {
    pub size: u64,
    pub flags: u32,
}

/// The heap is device local.
pub open spec fn is_device_local(heap: MemoryHeap) -> bool {
    heap.flags & MEMORY_HEAP_DEVICE_LOCAL_BIT == MEMORY_HEAP_DEVICE_LOCAL_BIT
}

/// Mebibytes of device-local memory in the first `n` heaps of `heaps`.
pub open spec fn device_local_mib(heaps: Seq<MemoryHeap>, n: int) -> nat
    decreases n,
{
    if n <= 0 {
        0
    } else {
        device_local_mib(heaps, n - 1) + if is_device_local(heaps[n - 1]) {
            (heaps[n - 1].size / MIB) as nat
        } else {
            0
        }
    }
}

/// The base-2 logarithm of `n`, rounded down; 0 for `n` of 0 or 1.
pub open spec fn floor_log2(n: nat) -> nat
    decreases n,
{
    if n <= 1 {
        0
    } else {
        1 + floor_log2(n / 2)
    }
}

/// The smaller of `a` and `b`.
pub open spec fn min_int(a: int, b: int) -> int {
    if a <= b {
        a
    } else {
        b
    }
}

/// What is known of a physical device, as reported by the driver, together with the
/// properties, features and extensions that would be enabled on it.
#[derive(Clone, Debug)]
pub struct PhysicalDeviceInfo {
    /// The raw `VkPhysicalDevice` handle.
    pub physical_device: u64,
    pub properties: DeviceProperties,
    pub enabled_properties: DeviceProperties,
    pub supported_features: DeviceFeatures,
    pub enabled_features: DeviceFeatures,
    pub supported_extensions: Vec<String>,
    pub enabled_extensions: Vec<String>,
    /// The memory heaps; the first `memory_heap_count` of them are valid.
    pub memory_heaps: [MemoryHeap; 16],
    pub memory_heap_count: u32,
    pub queue_families_indices: Families<Option<u32>>,
}

impl PhysicalDeviceInfo {
    /// The number of valid memory heaps (never more than the array holds).
    pub open spec fn heap_count(self) -> int {
        min_int(self.memory_heap_count as int, MAX_MEMORY_HEAPS as int)
    }

    /// Mebibytes of device-local memory.
    pub open spec fn vram_mib(self) -> nat {
        device_local_mib(self.memory_heaps@, self.heap_count())
    }

    /// The ranking of a physical device, the sum of: the base-2 logarithm (rounded down, 0 for
    /// none) of its mebibytes of device-local memory, capped at 1000; its compute shared memory
    /// in KiB, its compute work group invocations in hundreds, its largest 2D image and its
    /// framebuffer width in thousands, each capped at 100; and 50 for each of geometry
    /// shaders, tessellation shaders and multi-draw indirect.
    pub open spec fn score_spec(self) -> int {
        let limits = self.properties;
        min_int(floor_log2(self.vram_mib()) as int, 1000)
        + min_int(limits.limit(LIMIT_MAX_COMPUTE_SHARED_MEMORY_SIZE as int) as int / 1024, 100)
        + min_int(limits.limit(LIMIT_MAX_COMPUTE_WORK_GROUP_INVOCATIONS as int) as int / 100, 100)
        + min_int(limits.limit(LIMIT_MAX_IMAGE_DIMENSION_2D as int) as int / 1000, 100)
        + min_int(limits.limit(LIMIT_MAX_FRAMEBUFFER_WIDTH as int) as int / 1000, 100)
        + (if self.supported_features.has(FEATURE_GEOMETRY_SHADER as int) { 50int } else { 0int })
        + (if self.supported_features.has(FEATURE_TESSELLATION_SHADER as int) { 50int } else { 0int })
        + (if self.supported_features.has(FEATURE_MULTI_DRAW_INDIRECT as int) { 50int } else { 0int })
    }

    /// The device has a queue family for every required family.
    pub open spec fn has_families(self, required: Families<bool>) -> bool {
        forall|f: Family| #[trigger] required.field(f) ==> self.queue_families_indices.field(f) is Some
    }

    /// The device reports the extension `name`.
    pub open spec fn supports_extension(self, name: Seq<char>) -> bool {
        exists|k: int| 0 <= k < self.supported_extensions@.len() && #[trigger] self.supported_extensions@[k]@ == name
    }

    /// The device supports every extension in `required`.
    pub open spec fn has_extensions(self, required: Seq<String>) -> bool {
        forall|i: int| 0 <= i < required.len() ==> self.supports_extension(#[trigger] required[i]@)
    }

    /// Whether the device is a discrete GPU.
    pub fn is_discrete(&self) -> (r: bool)
        ensures
            r == (self.properties.device_type == DEVICE_TYPE_DISCRETE_GPU),
    {
        self.properties.device_type == DEVICE_TYPE_DISCRETE_GPU
    }

    /// Whether the device has a queue family for every family in `queue_families`.
    pub fn satisfies_families(&self, queue_families: Families<bool>) -> (r: bool)
        ensures
            r == self.has_families(queue_families),
    {
        let r = !(queue_families.graphics && self.queue_families_indices.graphics.is_none())
            && !(queue_families.compute && self.queue_families_indices.compute.is_none())
            && !(queue_families.transfer && self.queue_families_indices.transfer.is_none())
            && !(queue_families.sparse && self.queue_families_indices.sparse.is_none())
            && !(queue_families.protected && self.queue_families_indices.protected.is_none());
        proof {
            if !r {
                if queue_families.graphics && self.queue_families_indices.graphics.is_none() {
                    assert(queue_families.field(Family::Graphics));
                } else if queue_families.compute && self.queue_families_indices.compute.is_none() {
                    assert(queue_families.field(Family::Compute));
                } else if queue_families.transfer && self.queue_families_indices.transfer.is_none() {
                    assert(queue_families.field(Family::Transfer));
                } else if queue_families.sparse && self.queue_families_indices.sparse.is_none() {
                    assert(queue_families.field(Family::Sparse));
                } else {
                    assert(queue_families.field(Family::Protected));
                }
            }
        }
        r
    }

    /// Whether the device meets the required properties.
    pub fn satisfies_properties(&self, properties: DeviceProperties) -> (r: bool)
        ensures
            r == meets_properties(self.properties, properties),
    {
        satisfies_properties(&self.properties, &properties)
    }

    /// Whether the device supports the required features.
    pub fn satisfies_features(&self, features: DeviceFeatures) -> (r: bool)
        ensures
            r == covers_features(self.supported_features, features),
    {
        satisifes_features(&self.supported_features, &features)
    }

    /// Whether the device supports every required extension.
    pub fn satisfies_extensions(&self, extensions: &Vec<String>) -> (r: bool)
        ensures
            r == self.has_extensions(extensions@),
    {
        let mut i: usize = 0;
        while i < extensions.len()
            invariant
                i <= extensions.len(),
                forall|j: int| 0 <= j < i ==> self.supports_extension(#[trigger] extensions@[j]@),
            decreases extensions.len() - i,
        {
            if !self.supports(&extensions[i]) {
                return false;
            }
            i = i + 1;
        }
        true
    }

    /// Whether the device reports the extension `name`.
    fn supports(&self, name: &String) -> (r: bool)
        ensures
            r == self.supports_extension(name@),
    {
        let mut k: usize = 0;
        while k < self.supported_extensions.len()
            invariant
                k <= self.supported_extensions.len(),
                forall|m: int| 0 <= m < k ==> #[trigger] self.supported_extensions@[m]@ != name@,
            decreases self.supported_extensions.len() - k,
        {
            if self.supported_extensions[k] == *name {
                return true;
            }
            k = k + 1;
        }
        false
    }

    /// The ranking used to pick among suitable devices.
    pub fn score(&self) -> (r: u32)
        ensures
            r == self.score_spec(),
    {
        let count: usize = if (self.memory_heap_count as usize) < MAX_MEMORY_HEAPS {
            self.memory_heap_count as usize
        } else {
            MAX_MEMORY_HEAPS
        };
        let mut vram_mib: u64 = 0;
        let mut i: usize = 0;
        while i < count
            invariant
                count == self.heap_count(),
                count <= MAX_MEMORY_HEAPS,
                i <= count,
                vram_mib == device_local_mib(self.memory_heaps@, i as int),
                vram_mib <= i * 0x1000_0000_0000u64,
            decreases count - i,
        {
            let heap = self.memory_heaps[i];
            if heap.flags & MEMORY_HEAP_DEVICE_LOCAL_BIT == MEMORY_HEAP_DEVICE_LOCAL_BIT {
                assert(heap.size / MIB <= 0x1000_0000_0000u64) by (nonlinear_arith)
                    requires MIB == 1048576u64;
                vram_mib = vram_mib + heap.size / MIB;
            }
            i = i + 1;
        }
        let log = floor_log2_u64(vram_mib);
        let mut score: u32 = if log < 1000 { log as u32 } else { 1000 };
        let limits = &self.properties.limits;
        let shared = limits[LIMIT_MAX_COMPUTE_SHARED_MEMORY_SIZE] / 1024;
        score = score + if shared < 100 { shared } else { 100 };
        let invocations = limits[LIMIT_MAX_COMPUTE_WORK_GROUP_INVOCATIONS] / 100;
        score = score + if invocations < 100 { invocations } else { 100 };
        let dim = limits[LIMIT_MAX_IMAGE_DIMENSION_2D] / 1000;
        score = score + if dim < 100 { dim } else { 100 };
        let width = limits[LIMIT_MAX_FRAMEBUFFER_WIDTH] / 1000;
        score = score + if width < 100 { width } else { 100 };
        if self.supported_features.flags[FEATURE_GEOMETRY_SHADER] {
            score = score + 50;
        }
        if self.supported_features.flags[FEATURE_TESSELLATION_SHADER] {
            score = score + 50;
        }
        if self.supported_features.flags[FEATURE_MULTI_DRAW_INDIRECT] {
            score = score + 50;
        }
        score
    }
}

/// Requirements for the physical device on which a logical device is created, and the
/// preference among devices that meet them.
#[derive(Clone, Debug)]
pub struct Device {
    /// Among suitable devices, prefer the highest score (else the lowest).
    pub prefer_best: bool,
    /// Only discrete GPUs are suitable.
    pub require_discrete: bool,
    pub required_properties: DeviceProperties,
    pub required_features: DeviceFeatures,
    pub required_extensions: Vec<String>,
    pub required_queues: Families<bool>,
}

impl Default for Device {
    /// Prefer the best device, any device type, no required property, feature, extension or
    /// queue family.
    fn default() -> (r: Self)
        ensures
            r.prefer_best,
            !r.require_discrete,
            r.required_properties.device_type == crate::mass::DEVICE_TYPE_OTHER,
            forall|i: int| 0 <= i < crate::mass::LIMIT_COUNT ==> r.required_properties.limit(i) == 0,
            forall|i: int| 0 <= i < crate::mass::FEATURE_COUNT ==> !r.required_features.has(i),
            r.required_extensions@.len() == 0,
            r.required_queues.none_marked(),
    {
        let required_queues = Families {
            graphics: false,
            compute: false,
            transfer: false,
            sparse: false,
            protected: false,
        };
        Device {
            prefer_best: true,
            require_discrete: false,
            required_queues,
            required_properties: DeviceProperties::default(),
            required_features: DeviceFeatures::default(),
            required_extensions: Vec::new(),
        }
    }
}

impl Device {
    /// Whether the highest-scoring (else the lowest-scoring) suitable device is chosen.
    pub fn prefer_best(self, prefer: bool) -> (r: Self)
        ensures
            r == (Device { prefer_best: prefer, ..self }),
    {
        Device { prefer_best: prefer, ..self }
    }

    /// Whether only discrete GPUs are suitable.
    pub fn require_discrete(self, require: bool) -> (r: Self)
        ensures
            r == (Device { require_discrete: require, ..self }),
    {
        Device { require_discrete: require, ..self }
    }

    /// The limits and device type a suitable device must meet.
    pub fn require_properties(self, properties: DeviceProperties) -> (r: Self)
        ensures
            r == (Device { required_properties: properties, ..self }),
    {
        Device { required_properties: properties, ..self }
    }

    /// The features a suitable device must support (and that get enabled).
    pub fn require_features(self, features: DeviceFeatures) -> (r: Self)
        ensures
            r == (Device { required_features: features, ..self }),
    {
        Device { required_features: features, ..self }
    }

    /// The extensions a suitable device must support (and that get enabled): the names of
    /// `extensions`, each kept once, in the order of their first occurrence.
    pub fn require_extensions(self, extensions: Vec<String>) -> (r: Self)
        ensures
            r == (Device { required_extensions: r.required_extensions, ..self }),
            names_unique(r.required_extensions@),
            forall|x: Seq<char>| names_contain(r.required_extensions@, x) <==> names_contain(extensions@, x),
    {
        let unique = dedup_names(extensions);
        Device { required_extensions: unique, ..self }
    }

    /// The queue families a suitable device must offer.
    pub fn require_queues(self, queues: Families<bool>) -> (r: Self)
        ensures
            r == (Device { required_queues: queues, ..self }),
    {
        Device { required_queues: queues, ..self }
    }

    /// `d` meets every requirement of this configuration.
    pub open spec fn suitable(self, d: PhysicalDeviceInfo) -> bool {
        &&& (!self.require_discrete || d.properties.device_type == DEVICE_TYPE_DISCRETE_GPU)
        &&& d.has_families(self.required_queues)
        &&& d.has_extensions(self.required_extensions@)
        &&& meets_properties(d.properties, self.required_properties)
        &&& covers_features(d.supported_features, self.required_features)
    }

    /// `candidates[i]` is the device this configuration selects among `candidates`: a suitable
    /// one with the highest score, the last of them on a tie (when `prefer_best`), or with the
    /// lowest score, the first of them on a tie (otherwise).
    pub open spec fn is_choice(self, candidates: Seq<PhysicalDeviceInfo>, i: int) -> bool {
        &&& 0 <= i < candidates.len()
        &&& self.suitable(candidates[i])
        &&& if self.prefer_best {
            &&& forall|j: int|
                0 <= j < candidates.len() && self.suitable(#[trigger] candidates[j])
                    ==> candidates[j].score_spec() <= candidates[i].score_spec()
            &&& forall|j: int|
                i < j < candidates.len() && self.suitable(#[trigger] candidates[j])
                    ==> candidates[j].score_spec() < candidates[i].score_spec()
        } else {
            &&& forall|j: int|
                0 <= j < candidates.len() && self.suitable(#[trigger] candidates[j])
                    ==> candidates[j].score_spec() >= candidates[i].score_spec()
            &&& forall|j: int|
                0 <= j < i && self.suitable(#[trigger] candidates[j])
                    ==> candidates[j].score_spec() > candidates[i].score_spec()
        }
    }

    /// Whether `d` meets every requirement of this configuration.
    fn is_suitable(&self, d: &PhysicalDeviceInfo) -> (r: bool)
        ensures
            r == self.suitable(*d),
    {
        (!self.require_discrete || d.is_discrete())
            && d.satisfies_families(self.required_queues)
            && d.satisfies_extensions(&self.required_extensions)
            && d.satisfies_properties(self.required_properties)
            && d.satisfies_features(self.required_features)
    }

    /// Selects a physical device among `candidates`: `None` when none is suitable, else the
    /// suitable one ranked first (see [`Device::is_choice`]).
    pub fn select(&self, candidates: Vec<PhysicalDeviceInfo>) -> (r: Option<PhysicalDeviceInfo>)
        ensures
            r is None <==> forall|i: int| 0 <= i < candidates@.len() ==> !self.suitable(#[trigger] candidates@[i]),
            r matches Some(d) ==> exists|i: int| self.is_choice(candidates@, i) && d == candidates@[i],
            r matches Some(d) ==> meets_requirements(*self, d),
            (forall|i: int| 0 <= i < candidates@.len() ==> fails_a_requirement(*self, #[trigger] candidates@[i])) ==> r is None,
    {
        let mut best: Option<usize> = None;
        let mut best_score: u32 = 0;
        let mut k: usize = 0;
        while k < candidates.len()
            invariant
                k <= candidates.len(),
                best matches Some(b) ==> {
                    &&& b < k
                    &&& self.suitable(candidates@[b as int])
                    &&& candidates@[b as int].score_spec() == best_score
                    &&& if self.prefer_best {
                        &&& forall|j: int|
                            0 <= j < k && self.suitable(#[trigger] candidates@[j])
                                ==> candidates@[j].score_spec() <= best_score
                        &&& forall|j: int|
                            b < j < k && self.suitable(#[trigger] candidates@[j])
                                ==> candidates@[j].score_spec() < best_score
                    } else {
                        &&& forall|j: int|
                            0 <= j < k && self.suitable(#[trigger] candidates@[j])
                                ==> candidates@[j].score_spec() >= best_score
                        &&& forall|j: int|
                            0 <= j < b && self.suitable(#[trigger] candidates@[j])
                                ==> candidates@[j].score_spec() > best_score
                    }
                },
                best is None ==> forall|j: int| 0 <= j < k ==> !self.suitable(#[trigger] candidates@[j]),
            decreases candidates.len() - k,
        {
            if self.is_suitable(&candidates[k]) {
                let score = candidates[k].score();
                let take = match best {
                    None => true,
                    Some(_) => if self.prefer_best {
                        score >= best_score
                    } else {
                        score < best_score
                    },
                };
                if take {
                    best = Some(k);
                    best_score = score;
                }
            }
            k = k + 1;
        }
        proof {
            assert forall|i: int| 0 <= i < candidates@.len() && fails_a_requirement(*self, #[trigger] candidates@[i])
                implies !self.suitable(candidates@[i]) by {
                if self.suitable(candidates@[i]) {
                    lemma_suitable_meets_requirements(*self, candidates@[i]);
                    lemma_failing_is_not_suitable(*self, candidates@[i]);
                }
            }
        }
        match best {
            None => None,
            Some(b) => {
                let ghost chosen = candidates@[b as int];
                let mut candidates = candidates;
                let d = candidates.remove(b);
                proof {
                    lemma_suitable_meets_requirements(*self, chosen);
                }
                Some(d)
            },
        }
    }
}

/// What a logical device is created from: the selected physical device, the queue family
/// index of each required family (`None` for the others), and the distinct indices that
/// get a queue.
#[derive(Debug)]
pub struct DevicePlan {
    pub physical: PhysicalDeviceInfo,
    pub queue_family_indices: Families<Option<u32>>,
    pub queue_create_indices: Vec<u32>,
}

impl Device {
    /// `p` is the plan for a logical device offering `required_queues` on the device chosen
    /// among `candidates`: the chosen device, its indices of the required families, and
    /// the distinct indices among them.
    pub open spec fn is_plan(self, required_queues: Families<bool>, candidates: Seq<PhysicalDeviceInfo>, p: DevicePlan) -> bool {
        &&& exists|i: int| (Device { required_queues, ..self }).is_choice(candidates, i) && p.physical == candidates[i]
        &&& p.queue_family_indices == p.physical.queue_families_indices.filtered(required_queues)
        &&& p.queue_create_indices@.no_duplicates()
        &&& forall|x: u32| p.queue_create_indices@.contains(x) <==> p.queue_family_indices.holds_index(x)
    }

    /// Plans the creation of a logical device that offers the queue families
    /// `required_queues` (these replace the queue families this configuration asks for), on
    /// the device that [`Device::select`] picks among `candidates`.
    ///
    /// Fails with [`InitError::FeatureNotPresent`] exactly when no candidate is suitable.
    /// Every required family gets a queue family index.
    pub fn plan(self, required_queues: Families<bool>, candidates: Vec<PhysicalDeviceInfo>) -> (r: Result<DevicePlan, InitError>)
        ensures
            r is Err <==> forall|i: int| 0 <= i < candidates@.len() ==> !(Device { required_queues, ..self }).suitable(#[trigger] candidates@[i]),
            r matches Err(e) ==> e == InitError::FeatureNotPresent,
            r matches Ok(p) ==> self.is_plan(required_queues, candidates@, p),
            r matches Ok(p) ==> meets_requirements(Device { required_queues, ..self }, p.physical),
            r matches Ok(p) ==> forall|f: Family| #[trigger] required_queues.field(f) ==> p.queue_family_indices.field(f) is Some,
    {
        let config = self.require_queues(required_queues);
        match config.select(candidates) {
            None => Err(InitError::FeatureNotPresent),
            Some(physical) => {
                let queue_family_indices = physical.queue_families_indices.filter_required(&required_queues);
                let queue_create_indices = queue_family_indices.unique_indices();
                Ok(DevicePlan { physical, queue_family_indices, queue_create_indices })
            },
        }
    }
}

/// A created logical device: its raw `VkDevice` handle, the physical device it runs on, and
/// the raw `VkQueue` handle of each family that got a queue.
#[derive(Debug)]
pub struct DeviceInfo {
    pub device: u64,
    pub physical: PhysicalDeviceInfo,
    pub queue_handles: Families<Option<u64>>,
}

/// What the device must support for the rest of the configuration: the queue families the
/// command pools need, and what the swapchain needs.
pub struct DeviceConstraints {
    pub required_queues: Families<bool>,
    pub required_swapchain: Option<SwapchainRequirements>,
}

impl DeviceConstraints {
    /// No queue family and no swapchain is required.
    pub open spec fn is_empty(self) -> bool {
        &&& self.required_queues.none_marked()
        &&& self.required_swapchain is None
    }
}

impl Default for DeviceConstraints {
    /// No constraint.
    fn default() -> (r: Self)
        ensures
            r.is_empty(),
    {
        DeviceConstraints {
            required_queues: Families {
                graphics: false,
                compute: false,
                transfer: false,
                sparse: false,
                protected: false,
            },
            required_swapchain: None,
        }
    }
}

/// A device can be added to a configuration that has an instance and no device.
impl<S, CG, CC, CT, CS, CP> Apply<BaseConfig<Present, Absent, S, CG, CC, CT, CS, CP>> for Device
where
    S: Store<Swapchain, SwapchainInfo>,
    CG: Store<Vec<CommandPool<Graphics>>, Vec<CommandPoolInfo<Graphics>>>,
    CC: Store<Vec<CommandPool<Compute>>, Vec<CommandPoolInfo<Compute>>>,
    CT: Store<Vec<CommandPool<Transfer>>, Vec<CommandPoolInfo<Transfer>>>,
    CS: Store<Vec<CommandPool<Sparse>>, Vec<CommandPoolInfo<Sparse>>>,
    CP: Store<Vec<CommandPool<Protected>>, Vec<CommandPoolInfo<Protected>>>,
{
    type Out = BaseConfig<Present, Present, S, CG, CC, CT, CS, CP>;

    open spec fn apply_ensures(self, config: BaseConfig<Present, Absent, S, CG, CC, CT, CS, CP>, out: Self::Out) -> bool {
        &&& out.device == self
        &&& out.pools == config.pools
        &&& out.swapchain == config.swapchain
        &&& out.device_constraints == config.device_constraints
        &&& out.instance == config.instance
        &&& out.instance_constraints == config.instance_constraints
    }

    fn apply(self, config: BaseConfig<Present, Absent, S, CG, CC, CT, CS, CP>) -> (out: Self::Out) {
        BaseConfig {
            pools: config.pools,
            swapchain: config.swapchain,
            device: self,
            device_constraints: config.device_constraints,
            instance: config.instance,
            instance_constraints: config.instance_constraints,
        }
    }
}

/// `d` meets every requirement of `device`, stated on the fields of `d` directly.
pub open spec fn meets_requirements(device: Device, d: PhysicalDeviceInfo) -> bool {
    &&& (device.require_discrete ==> d.properties.device_type == 2)
    &&& forall|f: Family| #[trigger] device.required_queues.field(f) ==> d.queue_families_indices.field(f) is Some
    &&& forall|j: int| 0 <= j < device.required_extensions@.len() ==> names_contain(d.supported_extensions@, #[trigger] device.required_extensions@[j]@)
    &&& forall|j: int| 0 <= j < 78 ==> #[trigger] d.properties.limits@[j] >= device.required_properties.limits@[j]
    &&& (device.required_properties.device_type == 0 || d.properties.device_type == device.required_properties.device_type)
    &&& forall|j: int| 0 <= j < 55 && #[trigger] device.required_features.flags@[j] ==> d.supported_features.flags@[j]
}

/// `d` misses a required limit, the required device type, a required feature, or is not a
/// discrete GPU when one is required, stated on the fields of `d` directly.
pub open spec fn fails_a_requirement(device: Device, d: PhysicalDeviceInfo) -> bool {
    ||| exists|j: int| 0 <= j < 78 && #[trigger] d.properties.limits@[j] < device.required_properties.limits@[j]
    ||| (device.required_properties.device_type != 0 && d.properties.device_type != device.required_properties.device_type)
    ||| exists|j: int| 0 <= j < 55 && #[trigger] device.required_features.flags@[j] && !d.supported_features.flags@[j]
    ||| (device.require_discrete && d.properties.device_type != 2)
}

/// A device that misses a requirement is not suitable.
pub proof fn lemma_failing_is_not_suitable(device: Device, d: PhysicalDeviceInfo)
    requires
        fails_a_requirement(device, d),
    ensures
        !device.suitable(d),
{
    if device.suitable(d) {
        lemma_suitable_meets_requirements(device, d);
        if exists|j: int| 0 <= j < 78 && #[trigger] d.properties.limits@[j] < device.required_properties.limits@[j] {
            let j = choose|j: int| 0 <= j < 78 && #[trigger] d.properties.limits@[j] < device.required_properties.limits@[j];
            assert(d.properties.limits@[j] >= device.required_properties.limits@[j]);
        }
        if exists|j: int| 0 <= j < 55 && #[trigger] device.required_features.flags@[j] && !d.supported_features.flags@[j] {
            let j = choose|j: int| 0 <= j < 55 && #[trigger] device.required_features.flags@[j] && !d.supported_features.flags@[j];
            assert(d.supported_features.flags@[j]);
        }
    }
}

/// A suitable device meets every requirement: it is a discrete GPU when one is required
/// (`VK_PHYSICAL_DEVICE_TYPE_DISCRETE_GPU` is 2), offers every required queue family,
/// reports every required extension, has every limit at least the required one, is of the
/// required type unless `OTHER` (0) is required, and supports every required feature.
pub proof fn lemma_suitable_meets_requirements(device: Device, d: PhysicalDeviceInfo)
    requires
        device.suitable(d),
    ensures
        device.require_discrete ==> d.properties.device_type == 2,
        forall|f: Family| #[trigger] device.required_queues.field(f) ==> d.queue_families_indices.field(f) is Some,
        forall|j: int| 0 <= j < device.required_extensions@.len() ==> names_contain(d.supported_extensions@, #[trigger] device.required_extensions@[j]@),
        forall|j: int| 0 <= j < 78 ==> #[trigger] d.properties.limits@[j] >= device.required_properties.limits@[j],
        device.required_properties.device_type == 0 || d.properties.device_type == device.required_properties.device_type,
        forall|j: int| 0 <= j < 55 && #[trigger] device.required_features.flags@[j] ==> d.supported_features.flags@[j],
        meets_requirements(device, d),
{
    assert forall|j: int| 0 <= j < 78 implies #[trigger] d.properties.limits@[j] >= device.required_properties.limits@[j] by {
        assert(d.properties.limit(j) >= device.required_properties.limit(j));
    }
    assert forall|j: int| 0 <= j < 55 && #[trigger] device.required_features.flags@[j] implies d.supported_features.flags@[j] by {
        assert(device.required_features.has(j));
    }
    assert forall|j: int| 0 <= j < device.required_extensions@.len() implies names_contain(d.supported_extensions@, #[trigger] device.required_extensions@[j]@) by {
        assert(d.supports_extension(device.required_extensions@[j]@));
    }
}

/// At most one candidate is the choice: selection is deterministic.
pub proof fn lemma_choice_unique(device: Device, candidates: Seq<PhysicalDeviceInfo>, i: int, j: int)
    requires
        device.is_choice(candidates, i),
        device.is_choice(candidates, j),
    ensures
        i == j,
{
    if i < j {
        assert(device.suitable(candidates[i]) && device.suitable(candidates[j]));
    } else if j < i {
        assert(device.suitable(candidates[i]) && device.suitable(candidates[j]));
    }
}

/// Every required queue family of a device plan has an index, and that index gets a queue.
pub proof fn lemma_required_family_gets_queue(
    device: Device,
    required_queues: Families<bool>,
    candidates: Seq<PhysicalDeviceInfo>,
    p: DevicePlan,
    f: Family,
)
    requires
        device.is_plan(required_queues, candidates, p),
        required_queues.field(f),
    ensures
        p.queue_family_indices.field(f) is Some,
        p.queue_create_indices@.contains(p.queue_family_indices.field(f)->0),
{
    let config = Device { required_queues, ..device };
    let i = choose|i: int| config.is_choice(candidates, i) && p.physical == candidates[i];
    assert(config.suitable(candidates[i]));
    assert(p.physical.has_families(required_queues));
    assert(p.physical.queue_families_indices.field(f) is Some);
    assert(p.queue_family_indices.field(f) == p.physical.queue_families_indices.field(f));
    assert(p.queue_family_indices.holds_index(p.queue_family_indices.field(f)->0));
}

/// Some name in `names` is `x`.
pub open spec fn names_contain(names: Seq<String>, x: Seq<char>) -> bool {
    exists|i: int| 0 <= i < names.len() && #[trigger] names[i]@ == x
}

/// No two names in `names` are equal.
pub open spec fn names_unique(names: Seq<String>) -> bool {
    forall|i: int, j: int| 0 <= i < j < names.len() ==> #[trigger] names[i]@ != #[trigger] names[j]@
}

/// The names of `names`, each once, in the order of their first occurrence.
fn dedup_names(names: Vec<String>) -> (r: Vec<String>)
    ensures
        names_unique(r@),
        forall|x: Seq<char>| names_contain(r@, x) <==> names_contain(names@, x),
{
    let mut out: Vec<String> = Vec::new();
    let mut i: usize = 0;
    while i < names.len()
        invariant
            i <= names.len(),
            names_unique(out@),
            forall|x: Seq<char>| names_contain(out@, x) <==> names_contain(names@.take(i as int), x),
        decreases names.len() - i,
    {
        let mut seen = false;
        let mut k: usize = 0;
        while k < out.len()
            invariant
                k <= out.len(),
                i < names.len(),
                names_unique(out@),
                forall|x: Seq<char>| names_contain(out@, x) <==> names_contain(names@.take(i as int), x),
                seen ==> names_contain(out@, names@[i as int]@),
                !seen ==> forall|m: int| 0 <= m < k ==> #[trigger] out@[m]@ != names@[i as int]@,
            decreases out.len() - k,
        {
            if out[k] == names[i] {
                seen = true;
            }
            k = k + 1;
        }
        let ghost before = out@;
        let ghost prefix = names@.take(i as int);
        let ghost next = names@.take(i + 1);
        assert(forall|x: Seq<char>| names_contain(before, x) <==> names_contain(prefix, x));
        assert(names_unique(before));
        assert(seen ==> names_contain(before, names@[i as int]@));
        assert(!seen ==> forall|m: int| 0 <= m < before.len() ==> #[trigger] before[m]@ != names@[i as int]@);
        if !seen {
            out.push(names[i].clone());
        }
        proof {
            assert(next =~= prefix.push(names@[i as int]));
            assert forall|x: Seq<char>| names_contain(out@, x) <==> names_contain(next, x) by {
                if names_contain(next, x) {
                    let j = choose|j: int| 0 <= j < next.len() && #[trigger] next[j]@ == x;
                    if j < prefix.len() {
                        assert(prefix[j]@ == x);
                        assert(names_contain(before, x));
                        let m = choose|m: int| 0 <= m < before.len() && #[trigger] before[m]@ == x;
                        assert(out@[m] == before[m]);
                    } else if !seen {
                        assert(out@[before.len() as int]@ == x);
                    }
                }
                if names_contain(out@, x) {
                    let m = choose|m: int| 0 <= m < out@.len() && #[trigger] out@[m]@ == x;
                    if m < before.len() {
                        assert(before[m]@ == x);
                        assert(names_contain(prefix, x));
                        let j = choose|j: int| 0 <= j < prefix.len() && #[trigger] prefix[j]@ == x;
                        assert(next[j] == prefix[j]);
                    } else {
                        assert(next[i as int]@ == x);
                    }
                }
            }
            assert forall|a: int, b: int| 0 <= a < b < out@.len() implies #[trigger] out@[a]@ != #[trigger] out@[b]@ by {
                if b < before.len() {
                    assert(out@[a] == before[a] && out@[b] == before[b]);
                } else {
                    assert(out@[a] == before[a]);
                }
            }
        }
        i = i + 1;
    }
    proof {
        assert(names@.take(names@.len() as int) =~= names@);
    }
    out
}

/// `floor_log2(x)` is at most `x`.
proof fn lemma_floor_log2_le(x: nat)
    ensures
        floor_log2(x) <= x,
    decreases x,
{
    if x > 1 {
        lemma_floor_log2_le(x / 2);
    }
}

/// The base-2 logarithm of `n`, rounded down (0 for 0 and 1).
fn floor_log2_u64(n: u64) -> (r: u64)
    ensures
        r == floor_log2(n as nat),
{
    let mut m = n;
    let mut r: u64 = 0;
    proof {
        lemma_floor_log2_le(n as nat);
    }
    while m > 1
        invariant
            r + floor_log2(m as nat) == floor_log2(n as nat),
            floor_log2(n as nat) <= n,
        decreases m,
    {
        m = m / 2;
        r = r + 1;
    }
    r
}

} // verus!
