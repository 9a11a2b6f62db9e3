//! The configuration being built, with the presence of each resource in its type.
use vstd::prelude::*;
use crate::command::{CommandPool, CommandPoolInfo, CommandPools};
use crate::device::{Device, DeviceConstraints, DeviceInfo};
use crate::families::{Compute, Graphics, Protected, Sparse, Transfer};
use crate::instance::{Instance, InstanceConstraints, InstanceInfo};
use crate::swapchain::{Swapchain, SwapchainInfo};
use crate::{Absent, Apply, FieldConfig, Store};

verus! {

/// The configuration during the building phase.
///
/// Each type parameter is [`crate::Present`] or [`Absent`] and tells whether the instance
/// (`I`), the device (`D`), the swapchain (`S`) and command pools of each queue family
/// (`CG`, `CC`, `CT`, `CS`, `CP`) are configured. Items are added with [`BaseConfig::with`].
pub struct BaseConfig<I, D, S, CG, CC, CT, CS, CP>
where
    I: Store<Instance, InstanceInfo>,
    D: Store<Device, DeviceInfo>,
    S: Store<Swapchain, SwapchainInfo>,
    CG: Store<Vec<CommandPool<Graphics>>, Vec<CommandPoolInfo<Graphics>>>,
    CC: Store<Vec<CommandPool<Compute>>, Vec<CommandPoolInfo<Compute>>>,
    CT: Store<Vec<CommandPool<Transfer>>, Vec<CommandPoolInfo<Transfer>>>,
    CS: Store<Vec<CommandPool<Sparse>>, Vec<CommandPoolInfo<Sparse>>>,
    CP: Store<Vec<CommandPool<Protected>>, Vec<CommandPoolInfo<Protected>>>,
{
    pub pools: CommandPools<CG, CC, CT, CS, CP>,
    pub swapchain: FieldConfig<S, Swapchain, SwapchainInfo>,
    pub device: FieldConfig<D, Device, DeviceInfo>,
    pub device_constraints: DeviceConstraints,
    pub instance: FieldConfig<I, Instance, InstanceInfo>,
    pub instance_constraints: InstanceConstraints,
}

impl Default for BaseConfig<Absent, Absent, Absent, Absent, Absent, Absent, Absent, Absent> {
    /// Nothing configured, no constraint.
    fn default() -> (r: Self)
        ensures
            r.device_constraints.is_empty(),
            r.instance_constraints.required_surface is None,
    {
        BaseConfig {
            pools: CommandPools::default(),
            swapchain: (),
            device: (),
            device_constraints: DeviceConstraints::default(),
            instance: (),
            instance_constraints: InstanceConstraints::default(),
        }
    }
}

impl<I, D, S, CG, CC, CT, CS, CP> BaseConfig<I, D, S, CG, CC, CT, CS, CP>
where
    I: Store<Instance, InstanceInfo>,
    D: Store<Device, DeviceInfo>,
    S: Store<Swapchain, SwapchainInfo>,
    CG: Store<Vec<CommandPool<Graphics>>, Vec<CommandPoolInfo<Graphics>>>,
    CC: Store<Vec<CommandPool<Compute>>, Vec<CommandPoolInfo<Compute>>>,
    CT: Store<Vec<CommandPool<Transfer>>, Vec<CommandPoolInfo<Transfer>>>,
    CS: Store<Vec<CommandPool<Sparse>>, Vec<CommandPoolInfo<Sparse>>>,
    CP: Store<Vec<CommandPool<Protected>>, Vec<CommandPoolInfo<Protected>>>,
{
    /// Applies a configuration item to this configuration; what comes out is what the
    /// item's [`Apply::apply_ensures`] states.
    pub fn with<T: Apply<Self>>(self, opt: T) -> (r: T::Out)
        ensures
            T::apply_ensures(opt, self, r),
    {
        opt.apply(self)
    }
}

} // verus!
