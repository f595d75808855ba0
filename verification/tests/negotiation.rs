use rhi::negotiate::{
    negotiate_swapchain, resolve_extent, resolve_image_count, select_present_mode,
    select_surface_format, ColorSpace, Extent2d, FormatPolicy, PresentMode, SurfaceCapabilities,
    SurfaceFormat, SwapchainDescriptor, TextureFormat, COMPOSITE_ALPHA_OPAQUE,
    IMAGE_USAGE_COLOR_ATTACHMENT, NULL_HANDLE, SHARING_MODE_EXCLUSIVE,
};
use rhi::Error;

fn caps_unbounded() -> SurfaceCapabilities {
    SurfaceCapabilities {
        min_image_count: 2,
        max_image_count: 0,
        current_extent: Extent2d { width: u32::MAX, height: u32::MAX },
        min_image_extent: Extent2d { width: 1, height: 1 },
        max_image_extent: Extent2d { width: 4096, height: 4096 },
        current_transform: 1,
    }
}

#[test]
fn image_count_unbounded_honours_request() {
    assert_eq!(resolve_image_count(&caps_unbounded(), 3), 3);
}

#[test]
fn image_count_clamps_down_to_maximum() {
    let caps = SurfaceCapabilities { max_image_count: 2, ..caps_unbounded() };
    assert_eq!(resolve_image_count(&caps, 3), 2);
}

#[test]
fn image_count_clamps_up_to_minimum() {
    assert_eq!(resolve_image_count(&caps_unbounded(), 0), 2);
    assert_eq!(resolve_image_count(&caps_unbounded(), 1), 2);
    let bounded = SurfaceCapabilities { max_image_count: 4, ..caps_unbounded() };
    assert_eq!(resolve_image_count(&bounded, 1), 2);
    assert_eq!(resolve_image_count(&bounded, 9), 4);
}

#[test]
fn fixed_extent_is_honoured_verbatim() {
    let caps = SurfaceCapabilities {
        current_extent: Extent2d { width: 640, height: 480 },
        ..caps_unbounded()
    };
    assert_eq!(resolve_extent(&caps, 800, 600), Extent2d { width: 640, height: 480 });
    assert_eq!(resolve_extent(&caps, 1, 1), Extent2d { width: 640, height: 480 });
}

#[test]
fn undefined_extent_clamps_each_dimension() {
    let caps = SurfaceCapabilities {
        min_image_extent: Extent2d { width: 100, height: 200 },
        max_image_extent: Extent2d { width: 1000, height: 900 },
        ..caps_unbounded()
    };
    assert_eq!(resolve_extent(&caps, 800, 600), Extent2d { width: 800, height: 600 });
    assert_eq!(resolve_extent(&caps, 50, 600), Extent2d { width: 100, height: 600 });
    assert_eq!(resolve_extent(&caps, 2000, 50), Extent2d { width: 1000, height: 200 });
    assert_eq!(resolve_extent(&caps, 5, 5000), Extent2d { width: 100, height: 900 });
}

#[test]
fn mailbox_is_preferred_over_fifo() {
    let modes = vec![PresentMode::Fifo, PresentMode::Mailbox];
    assert_eq!(select_present_mode(&modes), Ok(PresentMode::Mailbox));
}

#[test]
fn fifo_is_the_fallback_mode() {
    let modes = vec![PresentMode::Immediate, PresentMode::Fifo];
    assert_eq!(select_present_mode(&modes), Ok(PresentMode::Fifo));
}

#[test]
fn no_acceptable_mode_fails_negotiation() {
    let modes = vec![PresentMode::Immediate, PresentMode::FifoRelaxed, PresentMode::Other(1000)];
    assert_eq!(select_present_mode(&modes), Err(Error::SwapchainNegotiationFailed));
}

#[test]
fn format_selection_prefers_first_unorm_entry() {
    let formats = vec![
        SurfaceFormat { format: TextureFormat::Other(184), color_space: ColorSpace::SrgbNonlinear },
        SurfaceFormat { format: TextureFormat::Rgba8Unorm, color_space: ColorSpace::Other(9) },
        SurfaceFormat { format: TextureFormat::Bgra8Unorm, color_space: ColorSpace::SrgbNonlinear },
    ];
    assert_eq!(
        select_surface_format(&formats, FormatPolicy::Relaxed),
        SurfaceFormat { format: TextureFormat::Rgba8Unorm, color_space: ColorSpace::Other(9) }
    );
}

#[test]
fn strict_format_selection_insists_on_srgb() {
    let formats = vec![
        SurfaceFormat { format: TextureFormat::Rgba8Unorm, color_space: ColorSpace::Other(9) },
        SurfaceFormat { format: TextureFormat::Bgra8Unorm, color_space: ColorSpace::SrgbNonlinear },
    ];
    assert_eq!(
        select_surface_format(&formats, FormatPolicy::StrictSrgb),
        SurfaceFormat { format: TextureFormat::Bgra8Unorm, color_space: ColorSpace::SrgbNonlinear }
    );
}

#[test]
fn format_selection_falls_back_to_first_listed() {
    let formats = vec![
        SurfaceFormat { format: TextureFormat::Other(44), color_space: ColorSpace::Other(9) },
        SurfaceFormat { format: TextureFormat::Other(45), color_space: ColorSpace::SrgbNonlinear },
    ];
    assert_eq!(
        select_surface_format(&formats, FormatPolicy::Relaxed),
        SurfaceFormat { format: TextureFormat::Other(44), color_space: ColorSpace::Other(9) }
    );
}

#[test]
fn unbounded_surface_yields_requested_extent_and_count() {
    let desc = SwapchainDescriptor { width: 800, height: 600, image_count: 3 };
    let formats = vec![SurfaceFormat {
        format: TextureFormat::Bgra8Unorm,
        color_space: ColorSpace::SrgbNonlinear,
    }];
    let modes = vec![PresentMode::Fifo];
    let config = negotiate_swapchain(77, &caps_unbounded(), &formats, &modes, &desc, FormatPolicy::Relaxed)
        .expect("negotiation should succeed with FIFO available");
    assert_eq!(config.extent, Extent2d { width: 800, height: 600 });
    assert_eq!(config.image_count, 3);
    assert_eq!(config.surface, 77);
    assert_eq!(config.format, TextureFormat::Bgra8Unorm);
    assert_eq!(config.color_space, ColorSpace::SrgbNonlinear);
    assert_eq!(config.present_mode, PresentMode::Fifo);
    assert_eq!(config.array_layers, 1);
    assert_eq!(config.image_usage, IMAGE_USAGE_COLOR_ATTACHMENT);
    assert_eq!(config.sharing_mode, SHARING_MODE_EXCLUSIVE);
    assert_eq!(config.pre_transform, 1);
    assert_eq!(config.composite_alpha, COMPOSITE_ALPHA_OPAQUE);
    assert!(config.clipped);
    assert_eq!(config.old_swapchain, NULL_HANDLE);
}

#[test]
fn bounded_surface_clamps_negotiated_count() {
    let desc = SwapchainDescriptor { width: 800, height: 600, image_count: 3 };
    let caps = SurfaceCapabilities { max_image_count: 2, ..caps_unbounded() };
    let formats = vec![SurfaceFormat {
        format: TextureFormat::Bgra8Unorm,
        color_space: ColorSpace::SrgbNonlinear,
    }];
    let modes = vec![PresentMode::Mailbox, PresentMode::Fifo];
    let config = negotiate_swapchain(77, &caps, &formats, &modes, &desc, FormatPolicy::Relaxed)
        .expect("negotiation should succeed");
    assert_eq!(config.image_count, 2);
    assert_eq!(config.present_mode, PresentMode::Mailbox);
}

#[test]
fn negotiation_fails_without_mailbox_or_fifo() {
    let desc = SwapchainDescriptor { width: 800, height: 600, image_count: 3 };
    let formats = vec![SurfaceFormat {
        format: TextureFormat::Bgra8Unorm,
        color_space: ColorSpace::SrgbNonlinear,
    }];
    let modes = vec![PresentMode::Immediate];
    assert_eq!(
        negotiate_swapchain(77, &caps_unbounded(), &formats, &modes, &desc, FormatPolicy::Relaxed),
        Err(Error::SwapchainNegotiationFailed)
    );
}
