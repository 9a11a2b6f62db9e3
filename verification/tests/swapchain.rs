use raw_window_handle::{RawDisplayHandle, RawWindowHandle, XlibDisplayHandle, XlibWindowHandle};
use vinit::swapchain::{
    Extent2D, SurfaceCapabilities, SurfaceFormat, Swapchain, COLOR_SPACE_SRGB_NONLINEAR,
    COMPOSITE_ALPHA_INHERIT, COMPOSITE_ALPHA_OPAQUE, COMPOSITE_ALPHA_PRE_MULTIPLIED,
    FORMAT_B8G8R8A8_SRGB, FORMAT_B8G8R8A8_UNORM, FORMAT_R8G8B8A8_SRGB, FORMAT_R8G8B8A8_UNORM,
    PRESENT_MODE_FIFO, PRESENT_MODE_IMMEDIATE, PRESENT_MODE_MAILBOX, SURFACE_TRANSFORM_IDENTITY,
};
use vinit::InitError;

const OTHER_COLOR_SPACE: i32 = 1000104001;
const ROTATE_90: u32 = 0x2;

fn swapchain() -> Swapchain {
    Swapchain::new(
        RawWindowHandle::Xlib(XlibWindowHandle::new(1)),
        RawDisplayHandle::Xlib(XlibDisplayHandle::new(None, 0)),
    )
}

fn caps() -> SurfaceCapabilities {
    SurfaceCapabilities {
        min_image_count: 1,
        max_image_count: 8,
        current_extent: Extent2D { width: 800, height: 600 },
        min_image_extent: Extent2D { width: 1, height: 1 },
        max_image_extent: Extent2D { width: 4096, height: 4096 },
        supported_transforms: SURFACE_TRANSFORM_IDENTITY | ROTATE_90,
        current_transform: SURFACE_TRANSFORM_IDENTITY,
        supported_composite_alpha: COMPOSITE_ALPHA_OPAQUE | COMPOSITE_ALPHA_INHERIT,
    }
}

fn sf(format: i32, color_space: i32) -> SurfaceFormat {
    SurfaceFormat { format, color_space }
}

#[test]
fn default_preferences() {
    let s = swapchain();
    assert_eq!(s.min_image_count, 2);
    assert_eq!(s.image_formats, vec![FORMAT_B8G8R8A8_SRGB, FORMAT_R8G8B8A8_SRGB, FORMAT_B8G8R8A8_UNORM, FORMAT_R8G8B8A8_UNORM]);
    assert_eq!(s.present_modes[0], PRESENT_MODE_MAILBOX);
    assert_eq!(s.array_layers, 1);
    assert!(s.clipped);
    assert!(s.extent.is_none());
}

#[test]
fn surface_format_follows_preferences() {
    let s = swapchain();
    let formats = vec![
        sf(FORMAT_R8G8B8A8_UNORM, COLOR_SPACE_SRGB_NONLINEAR),
        sf(FORMAT_B8G8R8A8_SRGB, OTHER_COLOR_SPACE),
        sf(FORMAT_R8G8B8A8_SRGB, COLOR_SPACE_SRGB_NONLINEAR),
        sf(FORMAT_B8G8R8A8_UNORM, COLOR_SPACE_SRGB_NONLINEAR),
    ];
    assert_eq!(s.choose_surface_format(&formats), Some(sf(FORMAT_R8G8B8A8_SRGB, COLOR_SPACE_SRGB_NONLINEAR)));
    assert_eq!(s.choose_surface_format(&vec![sf(FORMAT_B8G8R8A8_SRGB, OTHER_COLOR_SPACE)]), None);
    let s2 = swapchain().color_space(vec![OTHER_COLOR_SPACE, COLOR_SPACE_SRGB_NONLINEAR]);
    assert_eq!(s2.choose_surface_format(&formats), Some(sf(FORMAT_B8G8R8A8_SRGB, OTHER_COLOR_SPACE)));
}

#[test]
fn present_mode_and_composite_alpha() {
    let s = swapchain();
    assert_eq!(s.choose_present_mode(&vec![PRESENT_MODE_FIFO, PRESENT_MODE_IMMEDIATE]), Some(PRESENT_MODE_IMMEDIATE));
    assert_eq!(s.choose_present_mode(&vec![]), None);
    assert_eq!(s.choose_composite_alpha(&caps()), Some(COMPOSITE_ALPHA_OPAQUE));
    let s2 = swapchain().composite_alpha_flags(vec![COMPOSITE_ALPHA_PRE_MULTIPLIED, COMPOSITE_ALPHA_INHERIT]);
    assert_eq!(s2.choose_composite_alpha(&caps()), Some(COMPOSITE_ALPHA_INHERIT));
    let s3 = swapchain().composite_alpha_flags(vec![COMPOSITE_ALPHA_PRE_MULTIPLIED]);
    assert_eq!(s3.choose_composite_alpha(&caps()), None);
}

#[test]
fn extent_count_and_transform() {
    let s = swapchain();
    assert_eq!(s.choose_extent(&caps()), Extent2D { width: 800, height: 600 });
    let mut c = caps();
    c.current_extent = Extent2D { width: u32::MAX, height: u32::MAX };
    assert_eq!(s.choose_extent(&c), Extent2D { width: 1, height: 1 });
    let fixed = swapchain().extent(Extent2D { width: 10000, height: 0 });
    assert_eq!(fixed.choose_extent(&c), Extent2D { width: 4096, height: 1 });
    assert_eq!(s.choose_image_count(&caps()), 2);
    assert_eq!(swapchain().min_img_count(12).choose_image_count(&caps()), 8);
    c.max_image_count = 0;
    assert_eq!(swapchain().min_img_count(12).choose_image_count(&c), 12);
    c.min_image_count = 3;
    assert_eq!(s.choose_image_count(&c), 3);
    assert_eq!(swapchain().surface_transform_flags(ROTATE_90).choose_pre_transform(&caps()), ROTATE_90);
    assert_eq!(swapchain().surface_transform_flags(0x4).choose_pre_transform(&caps()), SURFACE_TRANSFORM_IDENTITY);
}

#[test]
fn plan_collects_choices_or_fails() {
    let s = swapchain().array_layers(2).clipped(false);
    let formats = vec![sf(FORMAT_B8G8R8A8_UNORM, COLOR_SPACE_SRGB_NONLINEAR)];
    let modes = vec![PRESENT_MODE_FIFO];
    let p = s.plan(&caps(), &formats, &modes).unwrap();
    assert_eq!(p.image_format, FORMAT_B8G8R8A8_UNORM);
    assert_eq!(p.image_color_space, COLOR_SPACE_SRGB_NONLINEAR);
    assert_eq!(p.present_mode, PRESENT_MODE_FIFO);
    assert_eq!(p.image_extent, Extent2D { width: 800, height: 600 });
    assert_eq!(p.min_image_count, 2);
    assert_eq!(p.composite_alpha, COMPOSITE_ALPHA_OPAQUE);
    assert_eq!(p.image_array_layers, 2);
    assert!(!p.clipped);
    assert_eq!(s.plan(&caps(), &vec![], &modes).unwrap_err(), InitError::FormatNotSupported);
    let no_alpha = swapchain().composite_alpha_flags(vec![COMPOSITE_ALPHA_PRE_MULTIPLIED]);
    assert_eq!(no_alpha.plan(&caps(), &formats, &modes).unwrap_err(), InitError::FormatNotSupported);
}

#[test]
fn requirements_copy_preferences() {
    let s = swapchain();
    let r = s.requirements();
    assert_eq!(r.formats, s.image_formats);
    assert_eq!(r.color_spaces, s.color_spaces);
    assert_eq!(r.present_modes, s.present_modes);
    assert_eq!(r.image_usage, s.image_usage_flags);
}

#[test]
fn no_accepted_format_fails_before_the_extent_is_clamped() {
    let s = swapchain().extent(Extent2D { width: 10, height: 10 });
    let mut c = caps();
    c.min_image_extent = Extent2D { width: 100, height: 100 };
    c.max_image_extent = Extent2D { width: 1, height: 1 };
    let formats = vec![sf(FORMAT_B8G8R8A8_SRGB, OTHER_COLOR_SPACE)];
    assert_eq!(s.plan(&c, &formats, &vec![PRESENT_MODE_FIFO]).unwrap_err(), InitError::FormatNotSupported);
    assert_eq!(s.plan(&c, &vec![], &vec![]).unwrap_err(), InitError::FormatNotSupported);
}
