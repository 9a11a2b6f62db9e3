//! Command pools: their configuration per queue family, and the pools of a configuration.
use vstd::prelude::*;
use core::marker::PhantomData;
use crate::base::BaseConfig;
use crate::device::{lemma_required_family_gets_queue, Device, DeviceConstraints, DeviceInfo, DevicePlan, PhysicalDeviceInfo};
use crate::families::{Compute, Family, Graphics, Protected, QueueFamily, Sparse, Transfer};
use crate::instance::{Instance, InstanceInfo};
use crate::swapchain::{Swapchain, SwapchainInfo};
use crate::{Absent, Apply, FieldConfig, FieldInfo, Present, Store};

verus! {

/// Configuration of a command pool on the queue family `Q`: its creation flags
/// (`VkCommandPoolCreateFlags`).
pub struct CommandPool<Q: QueueFamily> {
    pub flags: u32,
    pub _queue: PhantomData<Q>,
}

impl CommandPool<Graphics> {
    /// A command pool on the graphics queue family, with no flags.
    pub fn graphics() -> (r: CommandPool<Graphics>)
        ensures
            r.flags == 0,
    {
        CommandPool { flags: 0, _queue: PhantomData }
    }
}

impl CommandPool<Compute> {
    /// A command pool on the compute queue family, with no flags.
    pub fn compute() -> (r: CommandPool<Compute>)
        ensures
            r.flags == 0,
    {
        CommandPool { flags: 0, _queue: PhantomData }
    }
}

impl CommandPool<Transfer> {
    /// A command pool on the transfer queue family, with no flags.
    pub fn transfer() -> (r: CommandPool<Transfer>)
        ensures
            r.flags == 0,
    {
        CommandPool { flags: 0, _queue: PhantomData }
    }
}

impl CommandPool<Sparse> {
    /// A command pool on the sparse queue family, with no flags.
    pub fn sparse() -> (r: CommandPool<Sparse>)
        ensures
            r.flags == 0,
    {
        CommandPool { flags: 0, _queue: PhantomData }
    }
}

impl CommandPool<Protected> {
    /// A command pool on the protected queue family, with no flags.
    pub fn protected() -> (r: CommandPool<Protected>)
        ensures
            r.flags == 0,
    {
        CommandPool { flags: 0, _queue: PhantomData }
    }
}

impl<Q: QueueFamily> CommandPool<Q> {
    /// Sets the creation flags.
    pub fn flags(self, flags: u32) -> (r: Self)
        ensures
            r.flags == flags,
    {
        CommandPool { flags, _queue: PhantomData }
    }

    /// The queue family index the pool is created for on `device`.
    pub fn queue_family_index(&self, device: &DeviceInfo) -> (r: u32)
        requires
            device.physical.queue_families_indices.field(Q::family()) is Some,
        ensures
            device.physical.queue_families_indices.field(Q::family()) == Some(r),
    {
        match device.physical.queue_families_indices.get::<Q>() {
            Some(idx) => *idx,
            None => 0,
        }
    }
}

/// What a command pool is created with: its flags and its queue family index.
#[derive(PartialEq, Eq, Structural, Clone, Copy, Debug)]
pub struct CommandPoolPlan {
    pub flags: u32,
    pub queue_family_index: u32,
}

impl<Q: QueueFamily> CommandPool<Q> {
    /// What the pools `pools` of the family `Q` are created with on `device`, in order: each
    /// with its own flags and the device's queue family index of `Q`.
    pub fn plan_all(pools: &Vec<CommandPool<Q>>, device: &DeviceInfo) -> (r: Vec<CommandPoolPlan>)
        requires
            device.physical.queue_families_indices.field(Q::family()) is Some,
        ensures
            r@.len() == pools@.len(),
            forall|i: int| 0 <= i < pools@.len() ==> (#[trigger] r@[i]).flags == pools@[i].flags
                && device.physical.queue_families_indices.field(Q::family()) == Some(r@[i].queue_family_index),
    {
        let mut r: Vec<CommandPoolPlan> = Vec::new();
        let mut i: usize = 0;
        while i < pools.len()
            invariant
                i <= pools.len(),
                r@.len() == i,
                device.physical.queue_families_indices.field(Q::family()) is Some,
                forall|j: int| 0 <= j < i ==> (#[trigger] r@[j]).flags == pools@[j].flags
                    && device.physical.queue_families_indices.field(Q::family()) == Some(r@[j].queue_family_index),
            decreases pools.len() - i,
        {
            let queue_family_index = pools[i].queue_family_index(device);
            r.push(CommandPoolPlan { flags: pools[i].flags, queue_family_index });
            i = i + 1;
        }
        r
    }
}

/// A created command pool on the queue family `Q`: the raw `VkCommandPool` handle and the
/// raw handle of the queue it submits to.
#[derive(Debug)]
pub struct CommandPoolInfo<Q: QueueFamily> {
    pub pool: u64,
    pub queue: u64,
    pub _queue: PhantomData<Q>,
}

impl<Q: QueueFamily> CommandPoolInfo<Q> {
    /// Records the pool `pool` created on `device`, with the queue of the family `Q`.
    pub fn new(pool: u64, device: &DeviceInfo) -> (r: Self)
        requires
            device.queue_handles.field(Q::family()) is Some,
        ensures
            r.pool == pool,
            device.queue_handles.field(Q::family()) == Some(r.queue),
    {
        let queue = match device.queue_handles.get::<Q>() {
            Some(q) => *q,
            None => 0,
        };
        CommandPoolInfo { pool, queue, _queue: PhantomData }
    }
}

/// The command pools of a configuration, per queue family (`()` where absent).
pub struct CommandPools<CG, CC, CT, CS, CP>
where
    CG: Store<Vec<CommandPool<Graphics>>, Vec<CommandPoolInfo<Graphics>>>,
    CC: Store<Vec<CommandPool<Compute>>, Vec<CommandPoolInfo<Compute>>>,
    CT: Store<Vec<CommandPool<Transfer>>, Vec<CommandPoolInfo<Transfer>>>,
    CS: Store<Vec<CommandPool<Sparse>>, Vec<CommandPoolInfo<Sparse>>>,
    CP: Store<Vec<CommandPool<Protected>>, Vec<CommandPoolInfo<Protected>>>,
{
    pub graphics: FieldConfig<CG, Vec<CommandPool<Graphics>>, Vec<CommandPoolInfo<Graphics>>>,
    pub compute: FieldConfig<CC, Vec<CommandPool<Compute>>, Vec<CommandPoolInfo<Compute>>>,
    pub transfer: FieldConfig<CT, Vec<CommandPool<Transfer>>, Vec<CommandPoolInfo<Transfer>>>,
    pub sparse: FieldConfig<CS, Vec<CommandPool<Sparse>>, Vec<CommandPoolInfo<Sparse>>>,
    pub protected: FieldConfig<CP, Vec<CommandPool<Protected>>, Vec<CommandPoolInfo<Protected>>>,
}

impl Default for CommandPools<Absent, Absent, Absent, Absent, Absent> {
    /// No command pool on any family.
    fn default() -> (r: Self) {
        CommandPools { graphics: (), compute: (), transfer: (), sparse: (), protected: () }
    }
}

/// The created command pools, per queue family (`()` where absent).
pub struct CommandPoolInfos<CG, CC, CT, CS, CP>
where
    CG: Store<Vec<CommandPool<Graphics>>, Vec<CommandPoolInfo<Graphics>>>,
    CC: Store<Vec<CommandPool<Compute>>, Vec<CommandPoolInfo<Compute>>>,
    CT: Store<Vec<CommandPool<Transfer>>, Vec<CommandPoolInfo<Transfer>>>,
    CS: Store<Vec<CommandPool<Sparse>>, Vec<CommandPoolInfo<Sparse>>>,
    CP: Store<Vec<CommandPool<Protected>>, Vec<CommandPoolInfo<Protected>>>,
{
    pub graphics: FieldInfo<CG, Vec<CommandPool<Graphics>>, Vec<CommandPoolInfo<Graphics>>>,
    pub compute: FieldInfo<CC, Vec<CommandPool<Compute>>, Vec<CommandPoolInfo<Compute>>>,
    pub transfer: FieldInfo<CT, Vec<CommandPool<Transfer>>, Vec<CommandPoolInfo<Transfer>>>,
    pub sparse: FieldInfo<CS, Vec<CommandPool<Sparse>>, Vec<CommandPoolInfo<Sparse>>>,
    pub protected: FieldInfo<CP, Vec<CommandPool<Protected>>, Vec<CommandPoolInfo<Protected>>>,
}

/// A field of command pools that one more pool can be added to: `()` (none yet) or a vector.
pub trait AppendToField<T>: Sized {
    /// The pools after `item` is added.
    spec fn appended(self, item: T) -> Seq<T>;

    /// Adds `item`.
    fn append_or_create(self, item: T) -> (r: Vec<T>)
        ensures
            r@ == self.appended(item),
    ;
}

impl<T> AppendToField<T> for () {
    open spec fn appended(self, item: T) -> Seq<T> {
        seq![item]
    }

    fn append_or_create(self, item: T) -> (r: Vec<T>) {
        let mut v = Vec::new();
        v.push(item);
        v
    }
}

impl<T> AppendToField<T> for Vec<T> {
    open spec fn appended(self, item: T) -> Seq<T> {
        self@.push(item)
    }

    fn append_or_create(self, item: T) -> (r: Vec<T>) {
        let mut v = self;
        v.push(item);
        v
    }
}

/// Adding a graphics command pool needs an instance and a device; the graphics queue family
/// becomes required of the device.
impl<S, CG, CC, CT, CS, CP> Apply<BaseConfig<Present, Present, S, CG, CC, CT, CS, CP>> for CommandPool<Graphics>
where
    S: Store<Swapchain, SwapchainInfo>,
    CG: Store<Vec<CommandPool<Graphics>>, Vec<CommandPoolInfo<Graphics>>>,
    CC: Store<Vec<CommandPool<Compute>>, Vec<CommandPoolInfo<Compute>>>,
    CT: Store<Vec<CommandPool<Transfer>>, Vec<CommandPoolInfo<Transfer>>>,
    CS: Store<Vec<CommandPool<Sparse>>, Vec<CommandPoolInfo<Sparse>>>,
    CP: Store<Vec<CommandPool<Protected>>, Vec<CommandPoolInfo<Protected>>>,
    FieldConfig<CG, Vec<CommandPool<Graphics>>, Vec<CommandPoolInfo<Graphics>>>: AppendToField<CommandPool<Graphics>>,
{
    type Out = BaseConfig<Present, Present, S, Present, CC, CT, CS, CP>;

    open spec fn apply_ensures(self, config: BaseConfig<Present, Present, S, CG, CC, CT, CS, CP>, out: Self::Out) -> bool {
        &&& out.pools.graphics@ == config.pools.graphics.appended(self)
        &&& out.pools.compute == config.pools.compute
        &&& out.pools.transfer == config.pools.transfer
        &&& out.pools.sparse == config.pools.sparse
        &&& out.pools.protected == config.pools.protected
        &&& out.device_constraints.required_queues == config.device_constraints.required_queues.with_field(Family::Graphics, true)
        &&& out.device_constraints.required_swapchain == config.device_constraints.required_swapchain
        &&& out.instance == config.instance
        &&& out.device == config.device
        &&& out.swapchain == config.swapchain
        &&& out.instance_constraints == config.instance_constraints
    }

    fn apply(self, config: BaseConfig<Present, Present, S, CG, CC, CT, CS, CP>) -> (out: Self::Out) {
        let mut required_queues = config.device_constraints.required_queues;
        required_queues.set::<Graphics>(true);
        let graphics = config.pools.graphics.append_or_create(self);
        BaseConfig {
            instance: config.instance,
            instance_constraints: config.instance_constraints,
            device: config.device,
            device_constraints: DeviceConstraints {
                required_queues,
                required_swapchain: config.device_constraints.required_swapchain,
            },
            swapchain: config.swapchain,
            pools: CommandPools {
                graphics: graphics,
                compute: config.pools.compute,
                transfer: config.pools.transfer,
                sparse: config.pools.sparse,
                protected: config.pools.protected,
            },
        }
    }
}

/// Adding a compute command pool needs an instance and a device; the compute queue family
/// becomes required of the device.
impl<S, CG, CC, CT, CS, CP> Apply<BaseConfig<Present, Present, S, CG, CC, CT, CS, CP>> for CommandPool<Compute>
where
    S: Store<Swapchain, SwapchainInfo>,
    CG: Store<Vec<CommandPool<Graphics>>, Vec<CommandPoolInfo<Graphics>>>,
    CC: Store<Vec<CommandPool<Compute>>, Vec<CommandPoolInfo<Compute>>>,
    CT: Store<Vec<CommandPool<Transfer>>, Vec<CommandPoolInfo<Transfer>>>,
    CS: Store<Vec<CommandPool<Sparse>>, Vec<CommandPoolInfo<Sparse>>>,
    CP: Store<Vec<CommandPool<Protected>>, Vec<CommandPoolInfo<Protected>>>,
    FieldConfig<CC, Vec<CommandPool<Compute>>, Vec<CommandPoolInfo<Compute>>>: AppendToField<CommandPool<Compute>>,
{
    type Out = BaseConfig<Present, Present, S, CG, Present, CT, CS, CP>;

    open spec fn apply_ensures(self, config: BaseConfig<Present, Present, S, CG, CC, CT, CS, CP>, out: Self::Out) -> bool {
        &&& out.pools.compute@ == config.pools.compute.appended(self)
        &&& out.pools.graphics == config.pools.graphics
        &&& out.pools.transfer == config.pools.transfer
        &&& out.pools.sparse == config.pools.sparse
        &&& out.pools.protected == config.pools.protected
        &&& out.device_constraints.required_queues == config.device_constraints.required_queues.with_field(Family::Compute, true)
        &&& out.device_constraints.required_swapchain == config.device_constraints.required_swapchain
        &&& out.instance == config.instance
        &&& out.device == config.device
        &&& out.swapchain == config.swapchain
        &&& out.instance_constraints == config.instance_constraints
    }

    fn apply(self, config: BaseConfig<Present, Present, S, CG, CC, CT, CS, CP>) -> (out: Self::Out) {
        let mut required_queues = config.device_constraints.required_queues;
        required_queues.set::<Compute>(true);
        let compute = config.pools.compute.append_or_create(self);
        BaseConfig {
            instance: config.instance,
            instance_constraints: config.instance_constraints,
            device: config.device,
            device_constraints: DeviceConstraints {
                required_queues,
                required_swapchain: config.device_constraints.required_swapchain,
            },
            swapchain: config.swapchain,
            pools: CommandPools {
                graphics: config.pools.graphics,
                compute: compute,
                transfer: config.pools.transfer,
                sparse: config.pools.sparse,
                protected: config.pools.protected,
            },
        }
    }
}

/// Adding a transfer command pool needs an instance and a device; the transfer queue family
/// becomes required of the device.
impl<S, CG, CC, CT, CS, CP> Apply<BaseConfig<Present, Present, S, CG, CC, CT, CS, CP>> for CommandPool<Transfer>
where
    S: Store<Swapchain, SwapchainInfo>,
    CG: Store<Vec<CommandPool<Graphics>>, Vec<CommandPoolInfo<Graphics>>>,
    CC: Store<Vec<CommandPool<Compute>>, Vec<CommandPoolInfo<Compute>>>,
    CT: Store<Vec<CommandPool<Transfer>>, Vec<CommandPoolInfo<Transfer>>>,
    CS: Store<Vec<CommandPool<Sparse>>, Vec<CommandPoolInfo<Sparse>>>,
    CP: Store<Vec<CommandPool<Protected>>, Vec<CommandPoolInfo<Protected>>>,
    FieldConfig<CT, Vec<CommandPool<Transfer>>, Vec<CommandPoolInfo<Transfer>>>: AppendToField<CommandPool<Transfer>>,
{
    type Out = BaseConfig<Present, Present, S, CG, CC, Present, CS, CP>;

    open spec fn apply_ensures(self, config: BaseConfig<Present, Present, S, CG, CC, CT, CS, CP>, out: Self::Out) -> bool {
        &&& out.pools.transfer@ == config.pools.transfer.appended(self)
        &&& out.pools.graphics == config.pools.graphics
        &&& out.pools.compute == config.pools.compute
        &&& out.pools.sparse == config.pools.sparse
        &&& out.pools.protected == config.pools.protected
        &&& out.device_constraints.required_queues == config.device_constraints.required_queues.with_field(Family::Transfer, true)
        &&& out.device_constraints.required_swapchain == config.device_constraints.required_swapchain
        &&& out.instance == config.instance
        &&& out.device == config.device
        &&& out.swapchain == config.swapchain
        &&& out.instance_constraints == config.instance_constraints
    }

    fn apply(self, config: BaseConfig<Present, Present, S, CG, CC, CT, CS, CP>) -> (out: Self::Out) {
        let mut required_queues = config.device_constraints.required_queues;
        required_queues.set::<Transfer>(true);
        let transfer = config.pools.transfer.append_or_create(self);
        BaseConfig {
            instance: config.instance,
            instance_constraints: config.instance_constraints,
            device: config.device,
            device_constraints: DeviceConstraints {
                required_queues,
                required_swapchain: config.device_constraints.required_swapchain,
            },
            swapchain: config.swapchain,
            pools: CommandPools {
                graphics: config.pools.graphics,
                compute: config.pools.compute,
                transfer: transfer,
                sparse: config.pools.sparse,
                protected: config.pools.protected,
            },
        }
    }
}

/// Adding a sparse command pool needs an instance and a device; the sparse queue family
/// becomes required of the device.
impl<S, CG, CC, CT, CS, CP> Apply<BaseConfig<Present, Present, S, CG, CC, CT, CS, CP>> for CommandPool<Sparse>
where
    S: Store<Swapchain, SwapchainInfo>,
    CG: Store<Vec<CommandPool<Graphics>>, Vec<CommandPoolInfo<Graphics>>>,
    CC: Store<Vec<CommandPool<Compute>>, Vec<CommandPoolInfo<Compute>>>,
    CT: Store<Vec<CommandPool<Transfer>>, Vec<CommandPoolInfo<Transfer>>>,
    CS: Store<Vec<CommandPool<Sparse>>, Vec<CommandPoolInfo<Sparse>>>,
    CP: Store<Vec<CommandPool<Protected>>, Vec<CommandPoolInfo<Protected>>>,
    FieldConfig<CS, Vec<CommandPool<Sparse>>, Vec<CommandPoolInfo<Sparse>>>: AppendToField<CommandPool<Sparse>>,
{
    type Out = BaseConfig<Present, Present, S, CG, CC, CT, Present, CP>;

    open spec fn apply_ensures(self, config: BaseConfig<Present, Present, S, CG, CC, CT, CS, CP>, out: Self::Out) -> bool {
        &&& out.pools.sparse@ == config.pools.sparse.appended(self)
        &&& out.pools.graphics == config.pools.graphics
        &&& out.pools.compute == config.pools.compute
        &&& out.pools.transfer == config.pools.transfer
        &&& out.pools.protected == config.pools.protected
        &&& out.device_constraints.required_queues == config.device_constraints.required_queues.with_field(Family::Sparse, true)
        &&& out.device_constraints.required_swapchain == config.device_constraints.required_swapchain
        &&& out.instance == config.instance
        &&& out.device == config.device
        &&& out.swapchain == config.swapchain
        &&& out.instance_constraints == config.instance_constraints
    }

    fn apply(self, config: BaseConfig<Present, Present, S, CG, CC, CT, CS, CP>) -> (out: Self::Out) {
        let mut required_queues = config.device_constraints.required_queues;
        required_queues.set::<Sparse>(true);
        let sparse = config.pools.sparse.append_or_create(self);
        BaseConfig {
            instance: config.instance,
            instance_constraints: config.instance_constraints,
            device: config.device,
            device_constraints: DeviceConstraints {
                required_queues,
                required_swapchain: config.device_constraints.required_swapchain,
            },
            swapchain: config.swapchain,
            pools: CommandPools {
                graphics: config.pools.graphics,
                compute: config.pools.compute,
                transfer: config.pools.transfer,
                sparse: sparse,
                protected: config.pools.protected,
            },
        }
    }
}

/// Adding a protected command pool needs an instance and a device; the protected queue family
/// becomes required of the device.
impl<S, CG, CC, CT, CS, CP> Apply<BaseConfig<Present, Present, S, CG, CC, CT, CS, CP>> for CommandPool<Protected>
where
    S: Store<Swapchain, SwapchainInfo>,
    CG: Store<Vec<CommandPool<Graphics>>, Vec<CommandPoolInfo<Graphics>>>,
    CC: Store<Vec<CommandPool<Compute>>, Vec<CommandPoolInfo<Compute>>>,
    CT: Store<Vec<CommandPool<Transfer>>, Vec<CommandPoolInfo<Transfer>>>,
    CS: Store<Vec<CommandPool<Sparse>>, Vec<CommandPoolInfo<Sparse>>>,
    CP: Store<Vec<CommandPool<Protected>>, Vec<CommandPoolInfo<Protected>>>,
    FieldConfig<CP, Vec<CommandPool<Protected>>, Vec<CommandPoolInfo<Protected>>>: AppendToField<CommandPool<Protected>>,
{
    type Out = BaseConfig<Present, Present, S, CG, CC, CT, CS, Present>;

    open spec fn apply_ensures(self, config: BaseConfig<Present, Present, S, CG, CC, CT, CS, CP>, out: Self::Out) -> bool {
        &&& out.pools.protected@ == config.pools.protected.appended(self)
        &&& out.pools.graphics == config.pools.graphics
        &&& out.pools.compute == config.pools.compute
        &&& out.pools.transfer == config.pools.transfer
        &&& out.pools.sparse == config.pools.sparse
        &&& out.device_constraints.required_queues == config.device_constraints.required_queues.with_field(Family::Protected, true)
        &&& out.device_constraints.required_swapchain == config.device_constraints.required_swapchain
        &&& out.instance == config.instance
        &&& out.device == config.device
        &&& out.swapchain == config.swapchain
        &&& out.instance_constraints == config.instance_constraints
    }

    fn apply(self, config: BaseConfig<Present, Present, S, CG, CC, CT, CS, CP>) -> (out: Self::Out) {
        let mut required_queues = config.device_constraints.required_queues;
        required_queues.set::<Protected>(true);
        let protected = config.pools.protected.append_or_create(self);
        BaseConfig {
            instance: config.instance,
            instance_constraints: config.instance_constraints,
            device: config.device,
            device_constraints: DeviceConstraints {
                required_queues,
                required_swapchain: config.device_constraints.required_swapchain,
            },
            swapchain: config.swapchain,
            pools: CommandPools {
                graphics: config.pools.graphics,
                compute: config.pools.compute,
                transfer: config.pools.transfer,
                sparse: config.pools.sparse,
                protected: protected,
            },
        }
    }
}

/// Adding the graphics command pools `pools`, in order, to a configuration that has graphics
/// pools already: the graphics pools become the earlier ones followed by `pools`, in order and
/// as given (flags included); the graphics queue family is required of the device once a pool
/// is added; nothing else changes. `configs[k + 1]` is the configuration after `pools[k]`.
pub proof fn lemma_graphics_pools_in_order<S, CC, CT, CS, CP>(
    pools: Seq<CommandPool<Graphics>>,
    configs: Seq<BaseConfig<Present, Present, S, Present, CC, CT, CS, CP>>,
)
where
    S: Store<Swapchain, SwapchainInfo>,
    CC: Store<Vec<CommandPool<Compute>>, Vec<CommandPoolInfo<Compute>>>,
    CT: Store<Vec<CommandPool<Transfer>>, Vec<CommandPoolInfo<Transfer>>>,
    CS: Store<Vec<CommandPool<Sparse>>, Vec<CommandPoolInfo<Sparse>>>,
    CP: Store<Vec<CommandPool<Protected>>, Vec<CommandPoolInfo<Protected>>>,
    requires
        configs.len() == pools.len() + 1,
        forall|k: int| 0 <= k < pools.len() ==> <CommandPool<Graphics> as Apply<BaseConfig<Present, Present, S, Present, CC, CT, CS, CP>>>::apply_ensures(#[trigger] pools[k], configs[k], configs[k + 1]),
    ensures
        configs.last().pools.graphics@ == configs[0].pools.graphics@ + pools,
        pools.len() > 0 ==> configs.last().device_constraints.required_queues.graphics,
        configs.last().device_constraints.required_queues == (if pools.len() > 0 {
            configs[0].device_constraints.required_queues.with_field(Family::Graphics, true)
        } else {
            configs[0].device_constraints.required_queues
        }),
        configs.last().pools.compute == configs[0].pools.compute,
        configs.last().pools.transfer == configs[0].pools.transfer,
        configs.last().pools.sparse == configs[0].pools.sparse,
        configs.last().pools.protected == configs[0].pools.protected,
        configs.last().instance == configs[0].instance,
        configs.last().device == configs[0].device,
        configs.last().swapchain == configs[0].swapchain,
        configs.last().device_constraints.required_swapchain == configs[0].device_constraints.required_swapchain,
        configs.last().instance_constraints == configs[0].instance_constraints,
    decreases pools.len(),
{
    if pools.len() > 0 {
        let n = pools.len() - 1;
        let ps = pools.drop_last();
        let cs = configs.drop_last();
        assert forall|k: int| 0 <= k < ps.len() implies <CommandPool<Graphics> as Apply<BaseConfig<Present, Present, S, Present, CC, CT, CS, CP>>>::apply_ensures(#[trigger] ps[k], cs[k], cs[k + 1]) by {
            assert(ps[k] == pools[k]);
            assert(cs[k] == configs[k] && cs[k + 1] == configs[k + 1]);
            assert(<CommandPool<Graphics> as Apply<BaseConfig<Present, Present, S, Present, CC, CT, CS, CP>>>::apply_ensures(pools[k], configs[k], configs[k + 1]));
        }
        lemma_graphics_pools_in_order(ps, cs);
        assert(<CommandPool<Graphics> as Apply<BaseConfig<Present, Present, S, Present, CC, CT, CS, CP>>>::apply_ensures(pools[n], configs[n], configs[n + 1]));
        assert(cs.last() == configs[n]);
        assert(configs[0].pools.graphics@ + pools =~= (configs[0].pools.graphics@ + ps).push(pools[n]));
    }
}

/// Adding the compute command pools `pools`, in order, to a configuration that has compute
/// pools already: the compute pools become the earlier ones followed by `pools`, in order and
/// as given (flags included); the compute queue family is required of the device once a pool
/// is added; nothing else changes. `configs[k + 1]` is the configuration after `pools[k]`.
pub proof fn lemma_compute_pools_in_order<S, CG, CT, CS, CP>(
    pools: Seq<CommandPool<Compute>>,
    configs: Seq<BaseConfig<Present, Present, S, CG, Present, CT, CS, CP>>,
)
where
    S: Store<Swapchain, SwapchainInfo>,
    CG: Store<Vec<CommandPool<Graphics>>, Vec<CommandPoolInfo<Graphics>>>,
    CT: Store<Vec<CommandPool<Transfer>>, Vec<CommandPoolInfo<Transfer>>>,
    CS: Store<Vec<CommandPool<Sparse>>, Vec<CommandPoolInfo<Sparse>>>,
    CP: Store<Vec<CommandPool<Protected>>, Vec<CommandPoolInfo<Protected>>>,
    requires
        configs.len() == pools.len() + 1,
        forall|k: int| 0 <= k < pools.len() ==> <CommandPool<Compute> as Apply<BaseConfig<Present, Present, S, CG, Present, CT, CS, CP>>>::apply_ensures(#[trigger] pools[k], configs[k], configs[k + 1]),
    ensures
        configs.last().pools.compute@ == configs[0].pools.compute@ + pools,
        pools.len() > 0 ==> configs.last().device_constraints.required_queues.compute,
        configs.last().device_constraints.required_queues == (if pools.len() > 0 {
            configs[0].device_constraints.required_queues.with_field(Family::Compute, true)
        } else {
            configs[0].device_constraints.required_queues
        }),
        configs.last().pools.graphics == configs[0].pools.graphics,
        configs.last().pools.transfer == configs[0].pools.transfer,
        configs.last().pools.sparse == configs[0].pools.sparse,
        configs.last().pools.protected == configs[0].pools.protected,
        configs.last().instance == configs[0].instance,
        configs.last().device == configs[0].device,
        configs.last().swapchain == configs[0].swapchain,
        configs.last().device_constraints.required_swapchain == configs[0].device_constraints.required_swapchain,
        configs.last().instance_constraints == configs[0].instance_constraints,
    decreases pools.len(),
{
    if pools.len() > 0 {
        let n = pools.len() - 1;
        let ps = pools.drop_last();
        let cs = configs.drop_last();
        assert forall|k: int| 0 <= k < ps.len() implies <CommandPool<Compute> as Apply<BaseConfig<Present, Present, S, CG, Present, CT, CS, CP>>>::apply_ensures(#[trigger] ps[k], cs[k], cs[k + 1]) by {
            assert(ps[k] == pools[k]);
            assert(cs[k] == configs[k] && cs[k + 1] == configs[k + 1]);
            assert(<CommandPool<Compute> as Apply<BaseConfig<Present, Present, S, CG, Present, CT, CS, CP>>>::apply_ensures(pools[k], configs[k], configs[k + 1]));
        }
        lemma_compute_pools_in_order(ps, cs);
        assert(<CommandPool<Compute> as Apply<BaseConfig<Present, Present, S, CG, Present, CT, CS, CP>>>::apply_ensures(pools[n], configs[n], configs[n + 1]));
        assert(cs.last() == configs[n]);
        assert(configs[0].pools.compute@ + pools =~= (configs[0].pools.compute@ + ps).push(pools[n]));
    }
}

/// Adding the transfer command pools `pools`, in order, to a configuration that has transfer
/// pools already: the transfer pools become the earlier ones followed by `pools`, in order and
/// as given (flags included); the transfer queue family is required of the device once a pool
/// is added; nothing else changes. `configs[k + 1]` is the configuration after `pools[k]`.
pub proof fn lemma_transfer_pools_in_order<S, CG, CC, CS, CP>(
    pools: Seq<CommandPool<Transfer>>,
    configs: Seq<BaseConfig<Present, Present, S, CG, CC, Present, CS, CP>>,
)
where
    S: Store<Swapchain, SwapchainInfo>,
    CG: Store<Vec<CommandPool<Graphics>>, Vec<CommandPoolInfo<Graphics>>>,
    CC: Store<Vec<CommandPool<Compute>>, Vec<CommandPoolInfo<Compute>>>,
    CS: Store<Vec<CommandPool<Sparse>>, Vec<CommandPoolInfo<Sparse>>>,
    CP: Store<Vec<CommandPool<Protected>>, Vec<CommandPoolInfo<Protected>>>,
    requires
        configs.len() == pools.len() + 1,
        forall|k: int| 0 <= k < pools.len() ==> <CommandPool<Transfer> as Apply<BaseConfig<Present, Present, S, CG, CC, Present, CS, CP>>>::apply_ensures(#[trigger] pools[k], configs[k], configs[k + 1]),
    ensures
        configs.last().pools.transfer@ == configs[0].pools.transfer@ + pools,
        pools.len() > 0 ==> configs.last().device_constraints.required_queues.transfer,
        configs.last().device_constraints.required_queues == (if pools.len() > 0 {
            configs[0].device_constraints.required_queues.with_field(Family::Transfer, true)
        } else {
            configs[0].device_constraints.required_queues
        }),
        configs.last().pools.graphics == configs[0].pools.graphics,
        configs.last().pools.compute == configs[0].pools.compute,
        configs.last().pools.sparse == configs[0].pools.sparse,
        configs.last().pools.protected == configs[0].pools.protected,
        configs.last().instance == configs[0].instance,
        configs.last().device == configs[0].device,
        configs.last().swapchain == configs[0].swapchain,
        configs.last().device_constraints.required_swapchain == configs[0].device_constraints.required_swapchain,
        configs.last().instance_constraints == configs[0].instance_constraints,
    decreases pools.len(),
{
    if pools.len() > 0 {
        let n = pools.len() - 1;
        let ps = pools.drop_last();
        let cs = configs.drop_last();
        assert forall|k: int| 0 <= k < ps.len() implies <CommandPool<Transfer> as Apply<BaseConfig<Present, Present, S, CG, CC, Present, CS, CP>>>::apply_ensures(#[trigger] ps[k], cs[k], cs[k + 1]) by {
            assert(ps[k] == pools[k]);
            assert(cs[k] == configs[k] && cs[k + 1] == configs[k + 1]);
            assert(<CommandPool<Transfer> as Apply<BaseConfig<Present, Present, S, CG, CC, Present, CS, CP>>>::apply_ensures(pools[k], configs[k], configs[k + 1]));
        }
        lemma_transfer_pools_in_order(ps, cs);
        assert(<CommandPool<Transfer> as Apply<BaseConfig<Present, Present, S, CG, CC, Present, CS, CP>>>::apply_ensures(pools[n], configs[n], configs[n + 1]));
        assert(cs.last() == configs[n]);
        assert(configs[0].pools.transfer@ + pools =~= (configs[0].pools.transfer@ + ps).push(pools[n]));
    }
}

/// Adding the sparse command pools `pools`, in order, to a configuration that has sparse
/// pools already: the sparse pools become the earlier ones followed by `pools`, in order and
/// as given (flags included); the sparse queue family is required of the device once a pool
/// is added; nothing else changes. `configs[k + 1]` is the configuration after `pools[k]`.
pub proof fn lemma_sparse_pools_in_order<S, CG, CC, CT, CP>(
    pools: Seq<CommandPool<Sparse>>,
    configs: Seq<BaseConfig<Present, Present, S, CG, CC, CT, Present, CP>>,
)
where
    S: Store<Swapchain, SwapchainInfo>,
    CG: Store<Vec<CommandPool<Graphics>>, Vec<CommandPoolInfo<Graphics>>>,
    CC: Store<Vec<CommandPool<Compute>>, Vec<CommandPoolInfo<Compute>>>,
    CT: Store<Vec<CommandPool<Transfer>>, Vec<CommandPoolInfo<Transfer>>>,
    CP: Store<Vec<CommandPool<Protected>>, Vec<CommandPoolInfo<Protected>>>,
    requires
        configs.len() == pools.len() + 1,
        forall|k: int| 0 <= k < pools.len() ==> <CommandPool<Sparse> as Apply<BaseConfig<Present, Present, S, CG, CC, CT, Present, CP>>>::apply_ensures(#[trigger] pools[k], configs[k], configs[k + 1]),
    ensures
        configs.last().pools.sparse@ == configs[0].pools.sparse@ + pools,
        pools.len() > 0 ==> configs.last().device_constraints.required_queues.sparse,
        configs.last().device_constraints.required_queues == (if pools.len() > 0 {
            configs[0].device_constraints.required_queues.with_field(Family::Sparse, true)
        } else {
            configs[0].device_constraints.required_queues
        }),
        configs.last().pools.graphics == configs[0].pools.graphics,
        configs.last().pools.compute == configs[0].pools.compute,
        configs.last().pools.transfer == configs[0].pools.transfer,
        configs.last().pools.protected == configs[0].pools.protected,
        configs.last().instance == configs[0].instance,
        configs.last().device == configs[0].device,
        configs.last().swapchain == configs[0].swapchain,
        configs.last().device_constraints.required_swapchain == configs[0].device_constraints.required_swapchain,
        configs.last().instance_constraints == configs[0].instance_constraints,
    decreases pools.len(),
{
    if pools.len() > 0 {
        let n = pools.len() - 1;
        let ps = pools.drop_last();
        let cs = configs.drop_last();
        assert forall|k: int| 0 <= k < ps.len() implies <CommandPool<Sparse> as Apply<BaseConfig<Present, Present, S, CG, CC, CT, Present, CP>>>::apply_ensures(#[trigger] ps[k], cs[k], cs[k + 1]) by {
            assert(ps[k] == pools[k]);
            assert(cs[k] == configs[k] && cs[k + 1] == configs[k + 1]);
            assert(<CommandPool<Sparse> as Apply<BaseConfig<Present, Present, S, CG, CC, CT, Present, CP>>>::apply_ensures(pools[k], configs[k], configs[k + 1]));
        }
        lemma_sparse_pools_in_order(ps, cs);
        assert(<CommandPool<Sparse> as Apply<BaseConfig<Present, Present, S, CG, CC, CT, Present, CP>>>::apply_ensures(pools[n], configs[n], configs[n + 1]));
        assert(cs.last() == configs[n]);
        assert(configs[0].pools.sparse@ + pools =~= (configs[0].pools.sparse@ + ps).push(pools[n]));
    }
}

/// Adding the protected command pools `pools`, in order, to a configuration that has protected
/// pools already: the protected pools become the earlier ones followed by `pools`, in order and
/// as given (flags included); the protected queue family is required of the device once a pool
/// is added; nothing else changes. `configs[k + 1]` is the configuration after `pools[k]`.
pub proof fn lemma_protected_pools_in_order<S, CG, CC, CT, CS>(
    pools: Seq<CommandPool<Protected>>,
    configs: Seq<BaseConfig<Present, Present, S, CG, CC, CT, CS, Present>>,
)
where
    S: Store<Swapchain, SwapchainInfo>,
    CG: Store<Vec<CommandPool<Graphics>>, Vec<CommandPoolInfo<Graphics>>>,
    CC: Store<Vec<CommandPool<Compute>>, Vec<CommandPoolInfo<Compute>>>,
    CT: Store<Vec<CommandPool<Transfer>>, Vec<CommandPoolInfo<Transfer>>>,
    CS: Store<Vec<CommandPool<Sparse>>, Vec<CommandPoolInfo<Sparse>>>,
    requires
        configs.len() == pools.len() + 1,
        forall|k: int| 0 <= k < pools.len() ==> <CommandPool<Protected> as Apply<BaseConfig<Present, Present, S, CG, CC, CT, CS, Present>>>::apply_ensures(#[trigger] pools[k], configs[k], configs[k + 1]),
    ensures
        configs.last().pools.protected@ == configs[0].pools.protected@ + pools,
        pools.len() > 0 ==> configs.last().device_constraints.required_queues.protected,
        configs.last().device_constraints.required_queues == (if pools.len() > 0 {
            configs[0].device_constraints.required_queues.with_field(Family::Protected, true)
        } else {
            configs[0].device_constraints.required_queues
        }),
        configs.last().pools.graphics == configs[0].pools.graphics,
        configs.last().pools.compute == configs[0].pools.compute,
        configs.last().pools.transfer == configs[0].pools.transfer,
        configs.last().pools.sparse == configs[0].pools.sparse,
        configs.last().instance == configs[0].instance,
        configs.last().device == configs[0].device,
        configs.last().swapchain == configs[0].swapchain,
        configs.last().device_constraints.required_swapchain == configs[0].device_constraints.required_swapchain,
        configs.last().instance_constraints == configs[0].instance_constraints,
    decreases pools.len(),
{
    if pools.len() > 0 {
        let n = pools.len() - 1;
        let ps = pools.drop_last();
        let cs = configs.drop_last();
        assert forall|k: int| 0 <= k < ps.len() implies <CommandPool<Protected> as Apply<BaseConfig<Present, Present, S, CG, CC, CT, CS, Present>>>::apply_ensures(#[trigger] ps[k], cs[k], cs[k + 1]) by {
            assert(ps[k] == pools[k]);
            assert(cs[k] == configs[k] && cs[k + 1] == configs[k + 1]);
            assert(<CommandPool<Protected> as Apply<BaseConfig<Present, Present, S, CG, CC, CT, CS, Present>>>::apply_ensures(pools[k], configs[k], configs[k + 1]));
        }
        lemma_protected_pools_in_order(ps, cs);
        assert(<CommandPool<Protected> as Apply<BaseConfig<Present, Present, S, CG, CC, CT, CS, Present>>>::apply_ensures(pools[n], configs[n], configs[n + 1]));
        assert(cs.last() == configs[n]);
        assert(configs[0].pools.protected@ + pools =~= (configs[0].pools.protected@ + ps).push(pools[n]));
    }
}

/// Once a graphics command pool is added to a configuration, the device planned for it
/// (from the configuration's device and queue requirements) has a graphics queue family
/// index, and that index gets a queue: the pool always has a queue to submit to.
pub proof fn lemma_graphics_pool_gets_queue<S, CG, CC, CT, CS, CP>(
    pool: CommandPool<Graphics>,
    config: BaseConfig<Present, Present, S, CG, CC, CT, CS, CP>,
    out: BaseConfig<Present, Present, S, Present, CC, CT, CS, CP>,
    candidates: Seq<PhysicalDeviceInfo>,
    plan: DevicePlan,
)
where
    S: Store<Swapchain, SwapchainInfo>,
    CG: Store<Vec<CommandPool<Graphics>>, Vec<CommandPoolInfo<Graphics>>>,
    CC: Store<Vec<CommandPool<Compute>>, Vec<CommandPoolInfo<Compute>>>,
    CT: Store<Vec<CommandPool<Transfer>>, Vec<CommandPoolInfo<Transfer>>>,
    CS: Store<Vec<CommandPool<Sparse>>, Vec<CommandPoolInfo<Sparse>>>,
    CP: Store<Vec<CommandPool<Protected>>, Vec<CommandPoolInfo<Protected>>>,
    FieldConfig<CG, Vec<CommandPool<Graphics>>, Vec<CommandPoolInfo<Graphics>>>: AppendToField<CommandPool<Graphics>>,
    requires
        <CommandPool<Graphics> as Apply<BaseConfig<Present, Present, S, CG, CC, CT, CS, CP>>>::apply_ensures(pool, config, out),
        out.device.is_plan(out.device_constraints.required_queues, candidates, plan),
    ensures
        plan.queue_family_indices.graphics is Some,
        plan.queue_create_indices@.contains(plan.queue_family_indices.graphics->0),
{
    assert(out.device_constraints.required_queues.field(Family::Graphics));
    lemma_required_family_gets_queue(out.device, out.device_constraints.required_queues, candidates, plan, Family::Graphics);
}

} // verus!
