//! Swapchain configuration and the choice of its parameters from what a surface supports.
use vstd::prelude::*;
use crate::InitError;
use crate::command::{CommandPool, CommandPoolInfo};
use crate::families::{Compute, Graphics, Protected, Sparse, Transfer};
use crate::base::BaseConfig;
use crate::{Absent, Apply, Present, Store};
use crate::device::{Device, DeviceConstraints, DeviceInfo};
use crate::instance::{Instance, InstanceConstraints, InstanceInfo};

verus! {

/// The raw window handle a surface is created for (an outside type, carried as is).
#[verifier::external_type_specification]
#[verifier::external_body]
pub struct ExRawWindowHandle(raw_window_handle::RawWindowHandle);

/// The raw display handle a surface is created for (an outside type, carried as is).
#[verifier::external_type_specification]
#[verifier::external_body]
pub struct ExRawDisplayHandle(raw_window_handle::RawDisplayHandle);

pub const FORMAT_R8G8B8A8_UNORM: i32 = 37;

pub const FORMAT_R8G8B8A8_SRGB: i32 = 43;

pub const FORMAT_B8G8R8A8_UNORM: i32 = 44;

pub const FORMAT_B8G8R8A8_SRGB: i32 = 50;

pub const COLOR_SPACE_SRGB_NONLINEAR: i32 = 0;

pub const PRESENT_MODE_IMMEDIATE: i32 = 0;

pub const PRESENT_MODE_MAILBOX: i32 = 1;

pub const PRESENT_MODE_FIFO: i32 = 2;

pub const PRESENT_MODE_FIFO_RELAXED: i32 = 3;

pub const SHARING_MODE_EXCLUSIVE: i32 = 0;

pub const IMAGE_USAGE_COLOR_ATTACHMENT: u32 = 0x10;

pub const SURFACE_TRANSFORM_IDENTITY: u32 = 0x1;

pub const COMPOSITE_ALPHA_OPAQUE: u32 = 0x1;

pub const COMPOSITE_ALPHA_PRE_MULTIPLIED: u32 = 0x2;

pub const COMPOSITE_ALPHA_POST_MULTIPLIED: u32 = 0x4;

pub const COMPOSITE_ALPHA_INHERIT: u32 = 0x8;

/// A two-dimensional extent in pixels.
#[derive(PartialEq, Eq, Structural, Clone, Copy, Debug)]
pub struct Extent2D {
    pub width: u32,
    pub height: u32,
}

/// A format and color space pair that a surface supports.
#[derive(PartialEq, Eq, Structural, Clone, Copy, Debug)]
pub struct SurfaceFormat {
    pub format: i32,
    pub color_space: i32,
}

/// The capabilities of a surface that the swapchain parameters are chosen from.
#[derive(Clone, Copy, Debug)]
pub struct SurfaceCapabilities {
    pub min_image_count: u32,
    /// 0 when there is no maximum.
    pub max_image_count: u32,
    /// `u32::MAX` wide when the swapchain's extent decides the surface's.
    pub current_extent: Extent2D,
    pub min_image_extent: Extent2D,
    pub max_image_extent: Extent2D,
    pub supported_transforms: u32,
    pub current_transform: u32,
    pub supported_composite_alpha: u32,
}

/// Where the surface of the swapchain comes from.
#[derive(Clone, Copy)]
pub struct SurfaceSource {
    pub window: raw_window_handle::RawWindowHandle,
    pub display: raw_window_handle::RawDisplayHandle,
}

/// Swapchain configuration: the surface, and preferences (in order) among formats, color
/// spaces, present modes and composite alpha modes.
pub struct Swapchain {
    pub surface: SurfaceSource,
    pub min_image_count: u32,
    pub image_formats: Vec<i32>,
    pub image_sharing_mode: i32,
    pub color_spaces: Vec<i32>,
    pub present_modes: Vec<i32>,
    pub image_usage_flags: u32,
    pub surface_transform_flags: u32,
    pub composite_alpha_flags: Vec<u32>,
    pub array_layers: u32,
    pub extent: Option<Extent2D>,
    pub clipped: bool,
}

/// The parameters a swapchain is created with.
#[derive(Clone, Copy, Debug)]
pub struct SwapchainPlan {
    pub min_image_count: u32,
    pub image_format: i32,
    pub image_color_space: i32,
    pub image_extent: Extent2D,
    pub image_array_layers: u32,
    pub image_usage: u32,
    pub image_sharing_mode: i32,
    pub pre_transform: u32,
    pub composite_alpha: u32,
    pub present_mode: i32,
    pub clipped: bool,
}

/// What a device must support for the swapchain that is configured.
pub struct SwapchainRequirements {
    pub formats: Vec<i32>,
    pub color_spaces: Vec<i32>,
    pub present_modes: Vec<i32>,
    pub image_usage: u32,
}

/// A created swapchain: raw handles of the swapchain, its surface, its images and image
/// views, and the format and extent it was created with.
#[derive(Debug)]
pub struct SwapchainInfo {
    pub swapchain: u64,
    pub surface: u64,
    pub images: Vec<u64>,
    pub image_views: Vec<u64>,
    pub format: i32,
    pub extent: Extent2D,
}

/// The index of the first occurrence of `x` in `s`, or -1.
pub open spec fn first_index_of(s: Seq<i32>, x: i32) -> int
    decreases s.len(),
{
    if s.len() == 0 {
        -1
    } else {
        let p = first_index_of(s.drop_last(), x);
        if p >= 0 {
            p
        } else if s.last() == x {
            s.len() - 1
        } else {
            -1
        }
    }
}

/// `first_index_of` is the first occurrence, or -1 when there is none.
pub proof fn lemma_first_index_of(s: Seq<i32>, x: i32)
    ensures
        -1 <= first_index_of(s, x) < s.len(),
        first_index_of(s, x) >= 0 ==> s[first_index_of(s, x)] == x,
        forall|j: int| 0 <= j < s.len() && (first_index_of(s, x) == -1 || j < first_index_of(s, x)) ==> s[j] != x,
    decreases s.len(),
{
    if s.len() > 0 {
        let t = s.drop_last();
        lemma_first_index_of(t, x);
        assert forall|j: int| 0 <= j < t.len() implies t[j] == s[j] by {}
    }
}

/// Lexicographic order on (format position, color space position).
pub open spec fn rank_lt(a: (int, int), b: (int, int)) -> bool {
    a.0 < b.0 || (a.0 == b.0 && a.1 < b.1)
}

/// `x` clamped to `[lo, hi]`.
pub open spec fn clamp_spec(x: u32, lo: u32, hi: u32) -> u32 {
    if x < lo {
        lo
    } else if x > hi {
        hi
    } else {
        x
    }
}

/// The Vulkan `contains` of flag sets: every bit of `bits` is in `flags`.
pub open spec fn flags_contain(flags: u32, bits: u32) -> bool {
    flags & bits == bits
}

/// `r` is the first entry of `preferred` for which `ok` holds, or `None` when none does.
pub open spec fn is_first_accepted<T>(preferred: Seq<T>, ok: spec_fn(T) -> bool, r: Option<T>) -> bool {
    match r {
        Some(m) => exists|i: int| {
            &&& 0 <= i < preferred.len()
            &&& preferred[i] == m
            &&& ok(m)
            &&& forall|j: int| 0 <= j < i ==> !ok(#[trigger] preferred[j])
        },
        None => forall|j: int| 0 <= j < preferred.len() ==> !ok(#[trigger] preferred[j]),
    }
}

impl Swapchain {
    /// The positions of a surface format's format and color space among the preferences.
    pub open spec fn format_rank(self, sf: SurfaceFormat) -> (int, int) {
        (first_index_of(self.image_formats@, sf.format), first_index_of(self.color_spaces@, sf.color_space))
    }

    /// Both the format and the color space of `sf` are among the preferences.
    pub open spec fn accepts_format(self, sf: SurfaceFormat) -> bool {
        self.format_rank(sf).0 >= 0 && self.format_rank(sf).1 >= 0
    }

    /// `formats[i]` is the surface format chosen: an accepted one whose format comes first
    /// among the preferred formats, then whose color space comes first, the earliest in
    /// `formats` on a tie.
    pub open spec fn is_format_choice(self, formats: Seq<SurfaceFormat>, i: int) -> bool {
        &&& 0 <= i < formats.len()
        &&& self.accepts_format(formats[i])
        &&& forall|j: int|
            0 <= j < formats.len() && self.accepts_format(#[trigger] formats[j])
                ==> !rank_lt(self.format_rank(formats[j]), self.format_rank(formats[i]))
        &&& forall|j: int|
            0 <= j < i && self.accepts_format(#[trigger] formats[j])
                ==> rank_lt(self.format_rank(formats[i]), self.format_rank(formats[j]))
    }

    /// The present mode chosen: the first preferred one the surface supports.
    pub open spec fn is_present_mode_choice(self, supported: Seq<i32>, r: Option<i32>) -> bool {
        is_first_accepted(self.present_modes@, |m: i32| supported.contains(m), r)
    }

    /// The composite alpha mode chosen: the first preferred one the surface supports.
    pub open spec fn is_composite_alpha_choice(self, caps: SurfaceCapabilities, r: Option<u32>) -> bool {
        is_first_accepted(self.composite_alpha_flags@, |a: u32| flags_contain(caps.supported_composite_alpha, a), r)
    }

    /// The extent: the configured one clamped to the surface's bounds, else the surface's
    /// current extent when it has one, else its minimum extent.
    pub open spec fn extent_spec(self, caps: SurfaceCapabilities) -> Extent2D {
        match self.extent {
            Some(e) => Extent2D {
                width: clamp_spec(e.width, caps.min_image_extent.width, caps.max_image_extent.width),
                height: clamp_spec(e.height, caps.min_image_extent.height, caps.max_image_extent.height),
            },
            None => if caps.current_extent.width != u32::MAX {
                caps.current_extent
            } else {
                caps.min_image_extent
            },
        }
    }

    /// The image count: at least the configured and the surface's minimum, at most the
    /// surface's maximum when it has one.
    pub open spec fn image_count_spec(self, caps: SurfaceCapabilities) -> u32 {
        let c = if self.min_image_count >= caps.min_image_count {
            self.min_image_count
        } else {
            caps.min_image_count
        };
        if caps.max_image_count > 0 && c > caps.max_image_count {
            caps.max_image_count
        } else {
            c
        }
    }

    /// The pre-transform: the configured one when the surface supports it, else the
    /// surface's current one.
    pub open spec fn pre_transform_spec(self, caps: SurfaceCapabilities) -> u32 {
        if flags_contain(caps.supported_transforms, self.surface_transform_flags) {
            self.surface_transform_flags
        } else {
            caps.current_transform
        }
    }

    /// The surface format chosen among `surface_formats` (see [`Swapchain::is_format_choice`]),
    /// `None` when the surface supports none of the preferred format and color space pairs.
    pub fn choose_surface_format(&self, surface_formats: &Vec<SurfaceFormat>) -> (r: Option<SurfaceFormat>)
        ensures
            r is None <==> forall|j: int| 0 <= j < surface_formats@.len() ==> !self.accepts_format(#[trigger] surface_formats@[j]),
            r matches Some(sf) ==> exists|i: int| self.is_format_choice(surface_formats@, i) && sf == surface_formats@[i],
    {
        let mut best: Option<usize> = None;
        let mut best_rank: (usize, usize) = (0, 0);
        let mut k: usize = 0;
        while k < surface_formats.len()
            invariant
                k <= surface_formats.len(),
                best matches Some(b) ==> {
                    &&& b < k
                    &&& self.accepts_format(surface_formats@[b as int])
                    &&& self.format_rank(surface_formats@[b as int]) == (best_rank.0 as int, best_rank.1 as int)
                    &&& forall|j: int|
                        0 <= j < k && self.accepts_format(#[trigger] surface_formats@[j])
                            ==> !rank_lt(self.format_rank(surface_formats@[j]), (best_rank.0 as int, best_rank.1 as int))
                    &&& forall|j: int|
                        0 <= j < b && self.accepts_format(#[trigger] surface_formats@[j])
                            ==> rank_lt((best_rank.0 as int, best_rank.1 as int), self.format_rank(surface_formats@[j]))
                },
                best is None ==> forall|j: int| 0 <= j < k ==> !self.accepts_format(#[trigger] surface_formats@[j]),
            decreases surface_formats.len() - k,
        {
            let sf = surface_formats[k];
            let fi = position(&self.image_formats, sf.format);
            let ci = position(&self.color_spaces, sf.color_space);
            if let (Some(f), Some(c)) = (fi, ci) {
                let better = match best {
                    None => true,
                    Some(_) => f < best_rank.0 || (f == best_rank.0 && c < best_rank.1),
                };
                if better {
                    best = Some(k);
                    best_rank = (f, c);
                }
            }
            k = k + 1;
        }
        match best {
            None => None,
            Some(b) => Some(surface_formats[b]),
        }
    }

    /// The first preferred present mode that `supported` holds, `None` when it holds none.
    pub fn choose_present_mode(&self, supported: &Vec<i32>) -> (r: Option<i32>)
        ensures
            self.is_present_mode_choice(supported@, r),
    {
        let ghost ok = |m: i32| supported@.contains(m);
        let mut i: usize = 0;
        while i < self.present_modes.len()
            invariant
                i <= self.present_modes.len(),
                ok == (|m: i32| supported@.contains(m)),
                forall|j: int| 0 <= j < i ==> !ok(#[trigger] self.present_modes@[j]),
            decreases self.present_modes.len() - i,
        {
            let mode = self.present_modes[i];
            if contains_i32(supported, mode) {
                assert(ok(self.present_modes@[i as int]));
                return Some(mode);
            }
            i = i + 1;
        }
        None
    }

    /// The first preferred composite alpha mode the surface supports, `None` when it supports
    /// none of them.
    pub fn choose_composite_alpha(&self, caps: &SurfaceCapabilities) -> (r: Option<u32>)
        ensures
            self.is_composite_alpha_choice(*caps, r),
    {
        let ghost ok = |a: u32| flags_contain(caps.supported_composite_alpha, a);
        let mut i: usize = 0;
        while i < self.composite_alpha_flags.len()
            invariant
                i <= self.composite_alpha_flags.len(),
                ok == (|a: u32| flags_contain(caps.supported_composite_alpha, a)),
                forall|j: int| 0 <= j < i ==> !ok(#[trigger] self.composite_alpha_flags@[j]),
            decreases self.composite_alpha_flags.len() - i,
        {
            let mode = self.composite_alpha_flags[i];
            if caps.supported_composite_alpha & mode == mode {
                assert(ok(self.composite_alpha_flags@[i as int]));
                return Some(mode);
            }
            i = i + 1;
        }
        None
    }

    /// The extent the swapchain gets on a surface with capabilities `caps`.
    pub fn choose_extent(&self, caps: &SurfaceCapabilities) -> (r: Extent2D)
        requires
            self.extent is Some ==> caps.min_image_extent.width <= caps.max_image_extent.width
                && caps.min_image_extent.height <= caps.max_image_extent.height,
        ensures
            r == self.extent_spec(*caps),
            self.extent matches Some(e) ==> {
                &&& (caps.min_image_extent.width <= e.width <= caps.max_image_extent.width ==> r.width == e.width)
                &&& (e.width < caps.min_image_extent.width ==> r.width == caps.min_image_extent.width)
                &&& (e.width > caps.max_image_extent.width ==> r.width == caps.max_image_extent.width)
                &&& (caps.min_image_extent.height <= e.height <= caps.max_image_extent.height ==> r.height == e.height)
                &&& (e.height < caps.min_image_extent.height ==> r.height == caps.min_image_extent.height)
                &&& (e.height > caps.max_image_extent.height ==> r.height == caps.max_image_extent.height)
            },
            self.extent is None && caps.current_extent.width != u32::MAX ==> r == caps.current_extent,
            self.extent is None && caps.current_extent.width == u32::MAX ==> r == caps.min_image_extent,
    {
        proof {
            lemma_extent_clamps(*self, *caps);
        }
        match self.extent {
            Some(e) => Extent2D {
                width: clamp_u32(e.width, caps.min_image_extent.width, caps.max_image_extent.width),
                height: clamp_u32(e.height, caps.min_image_extent.height, caps.max_image_extent.height),
            },
            None => if caps.current_extent.width != u32::MAX {
                caps.current_extent
            } else {
                caps.min_image_extent
            },
        }
    }

    /// The number of images the swapchain asks for on a surface with capabilities `caps`.
    pub fn choose_image_count(&self, caps: &SurfaceCapabilities) -> (r: u32)
        ensures
            r == self.image_count_spec(*caps),
            caps.max_image_count == 0 || (self.min_image_count <= caps.max_image_count && caps.min_image_count <= caps.max_image_count)
                ==> r >= self.min_image_count && r >= caps.min_image_count && (r == self.min_image_count || r == caps.min_image_count),
            caps.max_image_count > 0 && (self.min_image_count > caps.max_image_count || caps.min_image_count > caps.max_image_count)
                ==> r == caps.max_image_count,
    {
        proof {
            lemma_image_count_bounds(*self, *caps);
        }
        let mut image_count = if self.min_image_count >= caps.min_image_count {
            self.min_image_count
        } else {
            caps.min_image_count
        };
        if caps.max_image_count > 0 && image_count > caps.max_image_count {
            image_count = caps.max_image_count;
        }
        image_count
    }

    /// The pre-transform the swapchain gets on a surface with capabilities `caps`.
    pub fn choose_pre_transform(&self, caps: &SurfaceCapabilities) -> (r: u32)
        ensures
            r == self.pre_transform_spec(*caps),
    {
        if caps.supported_transforms & self.surface_transform_flags == self.surface_transform_flags {
            self.surface_transform_flags
        } else {
            caps.current_transform
        }
    }
}

impl Swapchain {
    /// A swapchain for the surface of `window` on `display`, with the default preferences:
    /// at least two images; formats B8G8R8A8 sRGB, R8G8B8A8 sRGB, B8G8R8A8 UNORM, R8G8B8A8
    /// UNORM; the sRGB non-linear color space; present modes mailbox, immediate, FIFO, FIFO
    /// relaxed; exclusive sharing; color attachment usage; identity transform; composite
    /// alpha opaque, pre-multiplied, post-multiplied, inherit; one layer; the surface's
    /// extent; clipped.
    pub fn new(window: raw_window_handle::RawWindowHandle, display: raw_window_handle::RawDisplayHandle) -> (r: Swapchain)
        ensures
            r.surface.window == window,
            r.surface.display == display,
            r.min_image_count == 2,
            r.image_formats@ == seq![FORMAT_B8G8R8A8_SRGB, FORMAT_R8G8B8A8_SRGB, FORMAT_B8G8R8A8_UNORM, FORMAT_R8G8B8A8_UNORM],
            r.image_sharing_mode == SHARING_MODE_EXCLUSIVE,
            r.color_spaces@ == seq![COLOR_SPACE_SRGB_NONLINEAR],
            r.present_modes@ == seq![PRESENT_MODE_MAILBOX, PRESENT_MODE_IMMEDIATE, PRESENT_MODE_FIFO, PRESENT_MODE_FIFO_RELAXED],
            r.image_usage_flags == IMAGE_USAGE_COLOR_ATTACHMENT,
            r.surface_transform_flags == SURFACE_TRANSFORM_IDENTITY,
            r.composite_alpha_flags@ == seq![COMPOSITE_ALPHA_OPAQUE, COMPOSITE_ALPHA_PRE_MULTIPLIED, COMPOSITE_ALPHA_POST_MULTIPLIED, COMPOSITE_ALPHA_INHERIT],
            r.array_layers == 1,
            r.extent is None,
            r.clipped,
    {
        Swapchain {
            surface: SurfaceSource { window, display },
            min_image_count: 2,
            image_formats: vec![FORMAT_B8G8R8A8_SRGB, FORMAT_R8G8B8A8_SRGB, FORMAT_B8G8R8A8_UNORM, FORMAT_R8G8B8A8_UNORM],
            image_sharing_mode: SHARING_MODE_EXCLUSIVE,
            color_spaces: vec![COLOR_SPACE_SRGB_NONLINEAR],
            present_modes: vec![PRESENT_MODE_MAILBOX, PRESENT_MODE_IMMEDIATE, PRESENT_MODE_FIFO, PRESENT_MODE_FIFO_RELAXED],
            image_usage_flags: IMAGE_USAGE_COLOR_ATTACHMENT,
            surface_transform_flags: SURFACE_TRANSFORM_IDENTITY,
            composite_alpha_flags: vec![COMPOSITE_ALPHA_OPAQUE, COMPOSITE_ALPHA_PRE_MULTIPLIED, COMPOSITE_ALPHA_POST_MULTIPLIED, COMPOSITE_ALPHA_INHERIT],
            array_layers: 1,
            extent: None,
            clipped: true,
        }
    }

    /// Sets the minimum number of images.
    pub fn min_img_count(self, count: u32) -> (r: Self)
        ensures
            r == (Swapchain { min_image_count: count, ..self }),
    {
        Swapchain { min_image_count: count, ..self }
    }

    /// Sets the preferred image formats, most preferred first.
    pub fn img_format(self, format: Vec<i32>) -> (r: Self)
        ensures
            r == (Swapchain { image_formats: format, ..self }),
    {
        Swapchain { image_formats: format, ..self }
    }

    /// Sets the image sharing mode.
    pub fn image_sharing_mode(self, mode: i32) -> (r: Self)
        ensures
            r == (Swapchain { image_sharing_mode: mode, ..self }),
    {
        Swapchain { image_sharing_mode: mode, ..self }
    }

    /// Sets the preferred color spaces, most preferred first.
    pub fn color_space(self, color_space: Vec<i32>) -> (r: Self)
        ensures
            r == (Swapchain { color_spaces: color_space, ..self }),
    {
        Swapchain { color_spaces: color_space, ..self }
    }

    /// Sets the preferred present modes, most preferred first.
    pub fn present_mode(self, mode: Vec<i32>) -> (r: Self)
        ensures
            r == (Swapchain { present_modes: mode, ..self }),
    {
        Swapchain { present_modes: mode, ..self }
    }

    /// Sets the image usage flags.
    pub fn image_usage_flags(self, flags: u32) -> (r: Self)
        ensures
            r == (Swapchain { image_usage_flags: flags, ..self }),
    {
        Swapchain { image_usage_flags: flags, ..self }
    }

    /// Sets the wanted surface transform.
    pub fn surface_transform_flags(self, flags: u32) -> (r: Self)
        ensures
            r == (Swapchain { surface_transform_flags: flags, ..self }),
    {
        Swapchain { surface_transform_flags: flags, ..self }
    }

    /// Sets the preferred composite alpha modes, most preferred first.
    pub fn composite_alpha_flags(self, flags: Vec<u32>) -> (r: Self)
        ensures
            r == (Swapchain { composite_alpha_flags: flags, ..self }),
    {
        Swapchain { composite_alpha_flags: flags, ..self }
    }

    /// Sets the number of array layers of the images.
    pub fn array_layers(self, layers: u32) -> (r: Self)
        ensures
            r == (Swapchain { array_layers: layers, ..self }),
    {
        Swapchain { array_layers: layers, ..self }
    }

    /// Asks for a fixed extent (clamped to what the surface allows).
    pub fn extent(self, extent: Extent2D) -> (r: Self)
        ensures
            r == (Swapchain { extent: Some(extent), ..self }),
    {
        Swapchain { extent: Some(extent), ..self }
    }

    /// Sets whether pixels hidden by other windows may be discarded.
    pub fn clipped(self, clipped: bool) -> (r: Self)
        ensures
            r == (Swapchain { clipped, ..self }),
    {
        Swapchain { clipped, ..self }
    }

    /// What a device must support for this swapchain.
    pub fn requirements(&self) -> (r: SwapchainRequirements)
        ensures
            r.formats@ == self.image_formats@,
            r.color_spaces@ == self.color_spaces@,
            r.present_modes@ == self.present_modes@,
            r.image_usage == self.image_usage_flags,
    {
        SwapchainRequirements {
            formats: copy_i32s(&self.image_formats),
            color_spaces: copy_i32s(&self.color_spaces),
            present_modes: copy_i32s(&self.present_modes),
            image_usage: self.image_usage_flags,
        }
    }

    /// Some preferred present mode is in `supported`.
    pub open spec fn has_supported_present_mode(self, supported: Seq<i32>) -> bool {
        exists|i: int| 0 <= i < self.present_modes@.len() && supported.contains(#[trigger] self.present_modes@[i])
    }

    /// Some surface format in `formats` is accepted.
    pub open spec fn has_accepted_format(self, formats: Seq<SurfaceFormat>) -> bool {
        exists|j: int| 0 <= j < formats.len() && self.accepts_format(#[trigger] formats[j])
    }

    /// The parameters of the swapchain on a surface with capabilities `caps`, formats
    /// `surface_formats` and present modes `present_modes`.
    ///
    /// Fails with [`InitError::FormatNotSupported`] exactly when no surface format is accepted
    /// or the surface supports none of the preferred composite alpha modes. The caller must
    /// not ask for it when a surface format is accepted and either no preferred present mode
    /// is supported or a fixed extent is asked for on a surface whose minimum extent exceeds
    /// its maximum.
    pub fn plan(&self, caps: &SurfaceCapabilities, surface_formats: &Vec<SurfaceFormat>, present_modes: &Vec<i32>) -> (r: Result<SwapchainPlan, InitError>)
        requires
            self.has_accepted_format(surface_formats@) ==> self.has_supported_present_mode(present_modes@),
            self.has_accepted_format(surface_formats@) && self.extent is Some
                ==> caps.min_image_extent.width <= caps.max_image_extent.width
                && caps.min_image_extent.height <= caps.max_image_extent.height,
        ensures
            r is Err <==> !self.has_accepted_format(surface_formats@) || self.is_composite_alpha_choice(*caps, None),
            r matches Err(e) ==> e == InitError::FormatNotSupported,
            r matches Ok(p) ==> {
                &&& exists|i: int| self.is_format_choice(surface_formats@, i)
                    && p.image_format == surface_formats@[i].format
                    && p.image_color_space == surface_formats@[i].color_space
                &&& self.is_present_mode_choice(present_modes@, Some(p.present_mode))
                &&& p.image_extent == self.extent_spec(*caps)
                &&& p.min_image_count == self.image_count_spec(*caps)
                &&& p.pre_transform == self.pre_transform_spec(*caps)
                &&& self.is_composite_alpha_choice(*caps, Some(p.composite_alpha))
                &&& p.image_array_layers == self.array_layers
                &&& p.image_usage == self.image_usage_flags
                &&& p.image_sharing_mode == self.image_sharing_mode
                &&& p.clipped == self.clipped
            },
    {
        let surface_format = match self.choose_surface_format(surface_formats) {
            Some(sf) => sf,
            None => {
                return Err(InitError::FormatNotSupported);
            },
        };
        let present_mode = match self.choose_present_mode(present_modes) {
            Some(m) => m,
            None => {
                proof {
                    let i = choose|i: int| 0 <= i < self.present_modes@.len() && present_modes@.contains(#[trigger] self.present_modes@[i]);
                    assert(!present_modes@.contains(self.present_modes@[i]));
                }
                return Err(InitError::FormatNotSupported);
            },
        };
        let extent = self.choose_extent(caps);
        let image_count = self.choose_image_count(caps);
        let pre_transform = self.choose_pre_transform(caps);
        let composite_alpha = match self.choose_composite_alpha(caps) {
            Some(a) => a,
            None => {
                return Err(InitError::FormatNotSupported);
            },
        };
        Ok(SwapchainPlan {
            min_image_count: image_count,
            image_format: surface_format.format,
            image_color_space: surface_format.color_space,
            image_extent: extent,
            image_array_layers: self.array_layers,
            image_usage: self.image_usage_flags,
            image_sharing_mode: self.image_sharing_mode,
            pre_transform,
            composite_alpha,
            present_mode,
            clipped: self.clipped,
        })
    }
}

/// A swapchain can be added to a configuration that has an instance and a device: the
/// device must then support what the swapchain needs, and the instance a surface on its
/// display.
impl<CG, CC, CT, CS, CP> Apply<BaseConfig<Present, Present, Absent, CG, CC, CT, CS, CP>> for Swapchain
where
    CG: Store<Vec<CommandPool<Graphics>>, Vec<CommandPoolInfo<Graphics>>>,
    CC: Store<Vec<CommandPool<Compute>>, Vec<CommandPoolInfo<Compute>>>,
    CT: Store<Vec<CommandPool<Transfer>>, Vec<CommandPoolInfo<Transfer>>>,
    CS: Store<Vec<CommandPool<Sparse>>, Vec<CommandPoolInfo<Sparse>>>,
    CP: Store<Vec<CommandPool<Protected>>, Vec<CommandPoolInfo<Protected>>>,
{
    type Out = BaseConfig<Present, Present, Present, CG, CC, CT, CS, CP>;

    open spec fn apply_ensures(self, config: BaseConfig<Present, Present, Absent, CG, CC, CT, CS, CP>, out: Self::Out) -> bool {
        &&& out.swapchain == self
        &&& out.device_constraints.required_queues == config.device_constraints.required_queues
        &&& out.device_constraints.required_swapchain matches Some(req) && {
            &&& req.formats@ == self.image_formats@
            &&& req.color_spaces@ == self.color_spaces@
            &&& req.present_modes@ == self.present_modes@
            &&& req.image_usage == self.image_usage_flags
        }
        &&& out.instance_constraints.required_surface == Some(self.surface.display)
        &&& out.pools == config.pools
        &&& out.device == config.device
        &&& out.instance == config.instance
    }

    fn apply(self, config: BaseConfig<Present, Present, Absent, CG, CC, CT, CS, CP>) -> (out: Self::Out) {
        let requirements = self.requirements();
        let display = self.surface.display;
        BaseConfig {
            pools: config.pools,
            swapchain: self,
            device: config.device,
            device_constraints: DeviceConstraints { required_queues: config.device_constraints.required_queues, required_swapchain: Some(requirements) },
            instance: config.instance,
            instance_constraints: InstanceConstraints { required_surface: Some(display) },
        }
    }
}

/// At most one surface format is the choice: the choice is deterministic.
pub proof fn lemma_format_choice_unique(swapchain: Swapchain, formats: Seq<SurfaceFormat>, i: int, j: int)
    requires
        swapchain.is_format_choice(formats, i),
        swapchain.is_format_choice(formats, j),
    ensures
        i == j,
{
    if i < j {
        assert(swapchain.accepts_format(formats[i]));
    } else if j < i {
        assert(swapchain.accepts_format(formats[j]));
    }
}

/// A fixed extent is clamped to the surface's bounds: a side already within them is kept,
/// one below the minimum becomes the minimum, one above the maximum the maximum (so the
/// result lies within the bounds, which must be ordered). Without a fixed extent, the surface's current extent is
/// taken, or its minimum when the current width is `u32::MAX`.
pub proof fn lemma_extent_clamps(swapchain: Swapchain, caps: SurfaceCapabilities)
    requires
        swapchain.extent is Some ==> caps.min_image_extent.width <= caps.max_image_extent.width
            && caps.min_image_extent.height <= caps.max_image_extent.height,
    ensures
        swapchain.extent matches Some(e) ==> {
            let r = swapchain.extent_spec(caps);
            &&& (caps.min_image_extent.width <= e.width <= caps.max_image_extent.width ==> r.width == e.width)
            &&& (e.width < caps.min_image_extent.width ==> r.width == caps.min_image_extent.width)
            &&& (e.width > caps.max_image_extent.width ==> r.width == caps.max_image_extent.width)
            &&& (caps.min_image_extent.height <= e.height <= caps.max_image_extent.height ==> r.height == e.height)
            &&& (e.height < caps.min_image_extent.height ==> r.height == caps.min_image_extent.height)
            &&& (e.height > caps.max_image_extent.height ==> r.height == caps.max_image_extent.height)
        },
        swapchain.extent is None && caps.current_extent.width != u32::MAX ==> swapchain.extent_spec(caps) == caps.current_extent,
        swapchain.extent is None && caps.current_extent.width == u32::MAX ==> swapchain.extent_spec(caps) == caps.min_image_extent,
{
}

/// A fixed extent is brought within the surface's bounds.
pub proof fn lemma_extent_within_bounds(swapchain: Swapchain, caps: SurfaceCapabilities)
    requires
        swapchain.extent is Some,
        caps.min_image_extent.width <= caps.max_image_extent.width,
        caps.min_image_extent.height <= caps.max_image_extent.height,
    ensures
        caps.min_image_extent.width <= swapchain.extent_spec(caps).width <= caps.max_image_extent.width,
        caps.min_image_extent.height <= swapchain.extent_spec(caps).height <= caps.max_image_extent.height,
{
}

/// The image count is the larger of the configured count and the surface's minimum when
/// that fits under the surface's maximum (or there is none); otherwise it is the surface's
/// maximum. It never exceeds the surface's maximum when there is one.
pub proof fn lemma_image_count_bounds(swapchain: Swapchain, caps: SurfaceCapabilities)
    ensures
        caps.max_image_count > 0 ==> swapchain.image_count_spec(caps) <= caps.max_image_count,
        (caps.max_image_count == 0 || (swapchain.min_image_count <= caps.max_image_count && caps.min_image_count <= caps.max_image_count))
            ==> swapchain.image_count_spec(caps) >= swapchain.min_image_count && swapchain.image_count_spec(caps) >= caps.min_image_count
                && (swapchain.image_count_spec(caps) == swapchain.min_image_count || swapchain.image_count_spec(caps) == caps.min_image_count),
        caps.max_image_count > 0 && (swapchain.min_image_count > caps.max_image_count || caps.min_image_count > caps.max_image_count)
            ==> swapchain.image_count_spec(caps) == caps.max_image_count,
{
}

/// A copy of `v`.
fn copy_i32s(v: &Vec<i32>) -> (r: Vec<i32>)
    ensures
        r@ == v@,
{
    let mut r: Vec<i32> = Vec::new();
    let mut i: usize = 0;
    while i < v.len()
        invariant
            i <= v.len(),
            r@ == v@.take(i as int),
        decreases v.len() - i,
    {
        r.push(v[i]);
        i = i + 1;
        assert(r@ =~= v@.take(i as int));
    }
    assert(v@.take(v.len() as int) =~= v@);
    r
}

/// The position of the first occurrence of `x` in `v`.
fn position(v: &Vec<i32>, x: i32) -> (r: Option<usize>)
    ensures
        r matches Some(p) ==> p == first_index_of(v@, x),
        r is None ==> first_index_of(v@, x) == -1,
{
    let mut i: usize = 0;
    while i < v.len()
        invariant
            i <= v.len(),
            forall|j: int| 0 <= j < i ==> v@[j] != x,
        decreases v.len() - i,
    {
        if v[i] == x {
            proof {
                lemma_first_index_of(v@, x);
            }
            return Some(i);
        }
        i = i + 1;
    }
    proof {
        lemma_first_index_of(v@, x);
    }
    None
}

/// Whether `v` holds `x`.
fn contains_i32(v: &Vec<i32>, x: i32) -> (r: bool)
    ensures
        r == v@.contains(x),
{
    let mut i: usize = 0;
    while i < v.len()
        invariant
            i <= v.len(),
            forall|j: int| 0 <= j < i ==> v@[j] != x,
        decreases v.len() - i,
    {
        if v[i] == x {
            assert(v@[i as int] == x);
            return true;
        }
        i = i + 1;
    }
    false
}

/// `x` clamped to `[lo, hi]` (the `clamp` of `Ord`, which requires `lo <= hi`).
fn clamp_u32(x: u32, lo: u32, hi: u32) -> (r: u32)
    requires
        lo <= hi,
    ensures
        r == clamp_spec(x, lo, hi),
{
    if x < lo {
        lo
    } else if x > hi {
        hi
    } else {
        x
    }
}

} // verus!
