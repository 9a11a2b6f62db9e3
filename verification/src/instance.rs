//! Vulkan instance configuration.
use vstd::prelude::*;
use crate::command::{CommandPool, CommandPoolInfo};
use crate::families::{Compute, Graphics, Protected, Sparse, Transfer};
use crate::base::BaseConfig;
use crate::{Absent, Apply, Present, Store};
use crate::device::{Device, DeviceInfo};
use crate::swapchain::{Swapchain, SwapchainInfo};

verus! {

/// `VK_MAKE_API_VERSION(variant, major, minor, patch)`.
pub open spec fn api_version(variant: u32, major: u32, minor: u32, patch: u32) -> u32 {
    (variant << 29u32) | (major << 22u32) | (minor << 12u32) | patch
}

/// `VK_API_VERSION_MAJOR`.
pub open spec fn version_major(version: u32) -> u32 {
    (version >> 22u32) & 0x7fu32
}

/// `VK_API_VERSION_MINOR`.
pub open spec fn version_minor(version: u32) -> u32 {
    (version >> 12u32) & 0x3ffu32
}

/// `VK_API_VERSION_PATCH`.
pub open spec fn version_patch(version: u32) -> u32 {
    version & 0xfffu32
}

/// Builder for the configuration of a Vulkan instance.
pub struct Instance {
    pub api_version: (u32, u32, u32),
    pub app_name: Option<String>,
    pub app_version: Option<(u32, u32, u32)>,
    pub engine_name: Option<String>,
    pub engine_version: Option<(u32, u32, u32)>,
    pub extensions: Option<Vec<String>>,
    pub validation: Option<Vec<String>>,
}

impl Default for Instance {
    /// API version 1.0.0, nothing else set.
    fn default() -> (r: Self)
        ensures
            r.api_version == (1u32, 0u32, 0u32),
            r.app_name is None,
            r.app_version is None,
            r.engine_name is None,
            r.engine_version is None,
            r.extensions is None,
            r.validation is None,
    {
        Instance {
            api_version: (1, 0, 0),
            app_name: None,
            app_version: None,
            engine_name: None,
            engine_version: None,
            extensions: None,
            validation: None,
        }
    }
}

impl Instance {
    /// Sets the Vulkan API version to request.
    pub fn api_version(self, major: u32, minor: u32, patch: u32) -> (r: Self)
        ensures
            r == (Instance { api_version: (major, minor, patch), ..self }),
    {
        Instance { api_version: (major, minor, patch), ..self }
    }

    /// Sets the application name.
    pub fn app_name(self, app_name: String) -> (r: Self)
        ensures
            r == (Instance { app_name: Some(app_name), ..self }),
    {
        Instance { app_name: Some(app_name), ..self }
    }

    /// Sets the application version `major.minor.patch`.
    pub fn app_version(self, major: u32, minor: u32, patch: u32) -> (r: Self)
        ensures
            r == (Instance { app_version: Some((major, minor, patch)), ..self }),
    {
        Instance { app_version: Some((major, minor, patch)), ..self }
    }

    /// Sets the engine name.
    pub fn engine_name(self, engine_name: String) -> (r: Self)
        ensures
            r == (Instance { engine_name: Some(engine_name), ..self }),
    {
        Instance { engine_name: Some(engine_name), ..self }
    }

    /// Sets the engine version `major.minor.patch`.
    pub fn engine_version(self, major: u32, minor: u32, patch: u32) -> (r: Self)
        ensures
            r == (Instance { engine_version: Some((major, minor, patch)), ..self }),
    {
        Instance { engine_version: Some((major, minor, patch)), ..self }
    }

    /// Sets the instance extensions to enable.
    pub fn extensions(self, extensions: Vec<String>) -> (r: Self)
        ensures
            r == (Instance { extensions: Some(extensions), ..self }),
    {
        Instance { extensions: Some(extensions), ..self }
    }

    /// Enables validation layers.
    pub fn validation(self, layers: Vec<String>) -> (r: Self)
        ensures
            r == (Instance { validation: Some(layers), ..self }),
    {
        Instance { validation: Some(layers), ..self }
    }

    /// Encodes a version `(major, minor, patch)` as `VK_MAKE_API_VERSION(0, major, minor, patch)`.
    pub fn make_version(version: (u32, u32, u32)) -> (r: u32)
        ensures
            r == api_version(0, version.0, version.1, version.2),
    {
        (0u32 << 29u32) | (version.0 << 22u32) | (version.1 << 12u32) | version.2
    }

    /// The application information and the names the instance is created with: the encoded
    /// API version; the application and engine names when set; their encoded versions
    /// `major.minor.patch` when set, else 0; the extensions and validation layers when set, else none.
    pub fn plan(self) -> (r: InstancePlan)
        ensures
            r.api_version == api_version(0, self.api_version.0, self.api_version.1, self.api_version.2),
            r.application_name == self.app_name,
            r.application_version == match self.app_version {
                Some(v) => api_version(0, v.0, v.1, v.2),
                None => 0,
            },
            r.engine_name == self.engine_name,
            r.engine_version == match self.engine_version {
                Some(v) => api_version(0, v.0, v.1, v.2),
                None => 0,
            },
            r.enabled_extensions@ == match self.extensions {
                Some(e) => e@,
                None => Seq::<String>::empty(),
            },
            r.enabled_layers@ == match self.validation {
                Some(l) => l@,
                None => Seq::<String>::empty(),
            },
    {
        let api_version = Self::make_version(self.api_version);
        let application_version = match self.app_version {
            Some(v) => Self::make_version(v),
            None => 0,
        };
        let engine_version = match self.engine_version {
            Some(v) => Self::make_version(v),
            None => 0,
        };
        let enabled_extensions = match self.extensions {
            Some(e) => e,
            None => Vec::new(),
        };
        let enabled_layers = match self.validation {
            Some(l) => l,
            None => Vec::new(),
        };
        InstancePlan {
            api_version,
            application_name: self.app_name,
            application_version,
            engine_name: self.engine_name,
            engine_version,
            enabled_extensions,
            enabled_layers,
        }
    }
}

/// What an instance is created with: `VkApplicationInfo` and the enabled extension and
/// layer names.
#[derive(Debug)]
pub struct InstancePlan {
    pub api_version: u32,
    pub application_name: Option<String>,
    pub application_version: u32,
    pub engine_name: Option<String>,
    pub engine_version: u32,
    pub enabled_extensions: Vec<String>,
    pub enabled_layers: Vec<String>,
}

/// A created instance: its raw `VkInstance` handle.
#[derive(Debug)]
pub struct InstanceInfo {
    pub handle: u64,
}

/// What the instance must support for the rest of the configuration: a surface on this
/// display, when a swapchain is configured.
pub struct InstanceConstraints {
    pub required_surface: Option<raw_window_handle::RawDisplayHandle>,
}

impl Default for InstanceConstraints {
    /// No surface is required.
    fn default() -> (r: Self)
        ensures
            r.required_surface is None,
    {
        InstanceConstraints { required_surface: None }
    }
}

/// An instance can be added to a configuration that has none.
impl<D, S, CG, CC, CT, CS, CP> Apply<BaseConfig<Absent, D, S, CG, CC, CT, CS, CP>> for Instance
where
    D: Store<Device, DeviceInfo>,
    S: Store<Swapchain, SwapchainInfo>,
    CG: Store<Vec<CommandPool<Graphics>>, Vec<CommandPoolInfo<Graphics>>>,
    CC: Store<Vec<CommandPool<Compute>>, Vec<CommandPoolInfo<Compute>>>,
    CT: Store<Vec<CommandPool<Transfer>>, Vec<CommandPoolInfo<Transfer>>>,
    CS: Store<Vec<CommandPool<Sparse>>, Vec<CommandPoolInfo<Sparse>>>,
    CP: Store<Vec<CommandPool<Protected>>, Vec<CommandPoolInfo<Protected>>>,
{
    type Out = BaseConfig<Present, D, S, CG, CC, CT, CS, CP>;

    open spec fn apply_ensures(self, config: BaseConfig<Absent, D, S, CG, CC, CT, CS, CP>, out: Self::Out) -> bool {
        &&& out.instance == self
        &&& out.pools == config.pools
        &&& out.swapchain == config.swapchain
        &&& out.device == config.device
        &&& out.device_constraints == config.device_constraints
        &&& out.instance_constraints == config.instance_constraints
    }

    fn apply(self, config: BaseConfig<Absent, D, S, CG, CC, CT, CS, CP>) -> (out: Self::Out) {
        BaseConfig {
            pools: config.pools,
            swapchain: config.swapchain,
            device: config.device,
            device_constraints: config.device_constraints,
            instance: self,
            instance_constraints: config.instance_constraints,
        }
    }
}

/// A version triple within the ranges of its fields (7, 10 and 12 bits) is encoded without
/// loss: major, minor and patch decode back from `VK_MAKE_API_VERSION(0, major, minor, patch)`.
pub proof fn lemma_version_round_trip(major: u32, minor: u32, patch: u32)
    requires
        major < 128,
        minor < 1024,
        patch < 4096,
    ensures
        version_major(api_version(0, major, minor, patch)) == major,
        version_minor(api_version(0, major, minor, patch)) == minor,
        version_patch(api_version(0, major, minor, patch)) == patch,
{
    assert((((0u32 << 29u32) | (major << 22u32) | (minor << 12u32) | patch) >> 22u32) & 0x7fu32 == major) by (bit_vector)
        requires
            major < 128,
            minor < 1024,
            patch < 4096,
    ;
    assert((((0u32 << 29u32) | (major << 22u32) | (minor << 12u32) | patch) >> 12u32) & 0x3ffu32 == minor) by (bit_vector)
        requires
            major < 128,
            minor < 1024,
            patch < 4096,
    ;
    assert(((0u32 << 29u32) | (major << 22u32) | (minor << 12u32) | patch) & 0xfffu32 == patch) by (bit_vector)
        requires
            major < 128,
            minor < 1024,
            patch < 4096,
    ;
}

} // verus!
