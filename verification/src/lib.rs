//! Vulkan configuration and initialization planning (vinit).
//!
//! The library models the configuration of a Vulkan bring-up with the type-state
//! pattern: a [`base::BaseConfig`] records, in its type parameters, which resources
//! ([`Present`] or [`Absent`]) have been configured, and every configuration item is
//! added through [`Apply`]. The decisions taken while resources are created (which queue
//! families a device offers, which physical device is selected, which surface format,
//! present mode, extent and image count a swapchain gets) are verified functions on plain
//! values.
use vstd::prelude::*;

pub mod base;
pub mod command;
pub mod device;
pub mod families;
pub mod instance;
pub mod mass;
pub mod swapchain;

verus! {

/// Encodes presence or absence of a configured resource at the type level.
///
/// `StoredConfig` is `C` for [`Present`] and `()` for [`Absent`]; `StoredInfo` is `I`
/// for [`Present`] and `()` for [`Absent`].
pub trait Store<C, I> {
    type StoredConfig;
    type StoredInfo;
}

/// Marker type indicating a resource is present.
pub struct Present;

impl<C, I> Store<C, I> for Present {
    type StoredConfig = C;
    type StoredInfo = I;
}

/// Marker type indicating a resource is absent.
pub struct Absent;

impl<C, I> Store<C, I> for Absent {
    type StoredConfig = ();
    type StoredInfo = ();
}

/// The configuration field type for presence marker `S`: `C` or `()`.
pub type FieldConfig<S, C, I> = <S as Store<C, I>>::StoredConfig;

/// The information field type for presence marker `S`: `I` or `()`.
pub type FieldInfo<S, C, I> = <S as Store<C, I>>::StoredInfo;

/// Why a configuration cannot be realised on the devices at hand.
#[derive(PartialEq, Eq, Structural, Clone, Copy, Debug)]
pub enum InitError {
    /// No physical device meets the requirements (`VK_ERROR_FEATURE_NOT_PRESENT`).
    FeatureNotPresent,
    /// The surface supports none of the requested formats or composite alpha modes
    /// (`VK_ERROR_FORMAT_NOT_SUPPORTED`).
    FormatNotSupported,
}

/// Applies a configuration item to a configuration, producing the next configuration.
///
/// `apply_ensures(item, config, out)` states exactly what `out` is: each implementation
/// defines it and proves its `apply` against it.
pub trait Apply<For>: Sized {
    /// The resulting configuration type after applying this item.
    type Out;

    /// The relation between the item, the configuration it is applied to and the result.
    spec fn apply_ensures(self, config: For, out: Self::Out) -> bool;

    /// Applies this configuration item to the given configuration.
    fn apply(self, config: For) -> (out: Self::Out)
        ensures
            Self::apply_ensures(self, config, out),
    ;
}

} // verus!
