//! The negotiated presentation queue of images bound to a surface.
//!
//! Creation is planned here: the device negotiates the parameters
//! (`Device::swapchain_create`), the shell performs the native calls,
//! one image view is requested per driver-issued image — every view
//! with the same negotiated format — and the results are assembled
//! into a `Swapchain` whose view count provably equals its image
//! count. Teardown is planned in reverse: every view before the
//! swapchain itself.
use vstd::prelude::*;

use crate::device::Device;
use crate::instance::Surface;
use crate::negotiate::FormatPolicy;
use crate::negotiate::PresentMode;
use crate::negotiate::SurfaceCapabilities;
use crate::negotiate::SurfaceFormat;
use crate::negotiate::SwapchainConfig;
use crate::negotiate::SwapchainDescriptor;
use crate::negotiate::TextureFormat;
use crate::negotiate::negotiate_swapchain;
use crate::negotiate::spec_negotiated_config;
use crate::Error;

verus! {

/// Everything one native image-view creation is given: the image, the
/// negotiated format, and the fixed single-mip, single-layer, full
/// color range every view here uses.
#[derive(Clone, Copy, Debug, PartialEq, Eq, Structural)]
pub struct ImageViewRequest {
    pub image: u64,
    pub format: TextureFormat,
    pub base_mip_level: u32,
    pub level_count: u32,
    pub base_array_layer: u32,
    pub layer_count: u32,
}

/// The one view request this interface makes for an image: a 2D color
/// view of the single mip level and single array layer.
pub open spec fn spec_view_request(image: u64, format: TextureFormat) -> ImageViewRequest {
    ImageViewRequest {
        image,
        format,
        base_mip_level: 0,
        level_count: 1,
        base_array_layer: 0,
        layer_count: 1,
    }
}

/// Build one view request per driver-issued image, every request
/// bound to the same negotiated format.
pub fn image_view_requests(images: &Vec<u64>, format: TextureFormat) -> (r: Vec<ImageViewRequest>)
    ensures
        r@.len() == images@.len(),
        forall|i: int| 0 <= i < r@.len() ==> r@[i] == spec_view_request(images@[i], format),
{
    let n = images.len();
    let mut requests: Vec<ImageViewRequest> = Vec::new();
    let mut k: usize = 0;
    while k < n
        invariant
            0 <= k <= n,
            n == images@.len(),
            requests@.len() == k,
            forall|i: int| 0 <= i < k ==> requests@[i] == spec_view_request(images@[i], format),
        decreases n - k,
    {
        requests.push(
            ImageViewRequest {
                image: images[k],
                format,
                base_mip_level: 0,
                level_count: 1,
                base_array_layer: 0,
                layer_count: 1,
            },
        );
        k = k + 1;
    }
    requests
}

/// A driver-managed ring of presentable images bound to a surface.
/// The strong device reference makes it impossible to tear the device
/// down while the swapchain lives.
pub struct Swapchain {
    pub device: Device,
    pub raw: u64,
    /// The driver-issued presentable images, in driver order.
    pub images: Vec<u64>,
    /// One view per image, at the same position.
    pub image_views: Vec<u64>,
    /// The parameters the swapchain was created with.
    pub config: SwapchainConfig,
}

impl Swapchain {
    /// The swapchain's standing invariant: exactly one view per
    /// driver-issued image.
    pub open spec fn wf(self) -> bool {
        self.image_views@.len() == self.images@.len()
    }

    /// Assemble the swapchain from the natively created parts: the
    /// swapchain handle, the driver-issued images, and the view
    /// created for each of them.
    pub fn new(
        device: &Device,
        raw: u64,
        images: Vec<u64>,
        image_views: Vec<u64>,
        config: SwapchainConfig,
    ) -> (r: Swapchain)
        requires
            image_views@.len() == images@.len(),
        ensures
            r.wf(),
            r.device == *device,
            r.raw == raw,
            r.images@ == images@,
            r.image_views@ == image_views@,
            r.config == config,
    {
        Swapchain { device: device.clone(), raw, images, image_views, config }
    }
}

impl Device {
    /// Negotiate the creation parameters of a swapchain for `surface`
    /// from what the driver reports about it and what the caller
    /// requests. Fails with `Error::SwapchainNegotiationFailed`
    /// exactly when no acceptable present mode is offered; the native
    /// creation itself is the shell's to perform from the returned
    /// parameters.
    pub fn swapchain_create(
        &self,
        surface: &Surface,
        desc: &SwapchainDescriptor,
        caps: &SurfaceCapabilities,
        formats: &Vec<SurfaceFormat>,
        present_modes: &Vec<PresentMode>,
        format_policy: FormatPolicy,
    ) -> (r: Result<SwapchainConfig, Error>)
        requires
            formats@.len() > 0,
        ensures
            match spec_negotiated_config(
                surface.raw,
                *caps,
                formats@,
                present_modes@,
                *desc,
                format_policy,
            ) {
                Some(c) => r == Ok::<SwapchainConfig, Error>(c),
                None => r == Err::<SwapchainConfig, Error>(Error::SwapchainNegotiationFailed),
            },
    {
        negotiate_swapchain(surface.raw, caps, formats, present_modes, desc, format_policy)
    }

    /// Take a swapchain of this device apart for destruction. The
    /// returned handles must be released in the returned order: every
    /// image view first, then the swapchain handle itself. Consuming
    /// the swapchain here is what permits the teardown at all — no
    /// later use of it can exist.
    pub fn swapchain_destroy(&self, swapchain: Swapchain) -> (r: (Vec<u64>, u64))
        requires
            swapchain.device.core.handle == self.core.handle,
        ensures
            r.0@ == swapchain.image_views@,
            r.1 == swapchain.raw,
    {
        (swapchain.image_views, swapchain.raw)
    }
}

} // verus!
