//! Swapchain parameter negotiation.
//!
//! From the driver-reported surface capabilities, format list and
//! present-mode list, together with the caller's descriptor, these
//! functions pick the portable defaults the swapchain is created with:
//! a preferred pixel format, mailbox-over-FIFO presentation, an extent
//! honoured or clamped, and an image count clamped into the surface's
//! advertised range.
use vstd::prelude::*;

use crate::Error;

verus! {

/// Width and height of a surface or image, in pixels.
#[derive(Clone, Copy, Debug, PartialEq, Eq, Structural)]
pub struct Extent2d {
    pub width: u32,
    pub height: u32,
}

/// What the driver reports about a surface before swapchain creation.
/// `max_image_count == 0` means the image count is unbounded above;
/// a `current_extent` of (`u32::MAX`, `u32::MAX`) means the surface
/// leaves the extent to the application.
#[derive(Clone, Copy, Debug, PartialEq, Eq, Structural)]
pub struct SurfaceCapabilities {
    pub min_image_count: u32,
    pub max_image_count: u32,
    pub current_extent: Extent2d,
    pub min_image_extent: Extent2d,
    pub max_image_extent: Extent2d,
    /// Driver transform bits, passed through to creation untouched.
    pub current_transform: u32,
}

/// Pixel encoding of a surface format. Encodings the negotiation has
/// no preference about are carried as the driver's raw format code.
#[derive(Clone, Copy, Debug, PartialEq, Eq, Structural)]
pub enum TextureFormat {
    Bgra8Unorm,
    Rgba8Unorm,
    Other(i32),
}

/// Color space of a surface format; `Other` carries the raw code.
#[derive(Clone, Copy, Debug, PartialEq, Eq, Structural)]
pub enum ColorSpace {
    SrgbNonlinear,
    Other(i32),
}

/// One driver-supported surface format.
#[derive(Clone, Copy, Debug, PartialEq, Eq, Structural)]
pub struct SurfaceFormat {
    pub format: TextureFormat,
    pub color_space: ColorSpace,
}

/// Frame-presentation policy; `Other` carries the raw mode code.
#[derive(Clone, Copy, Debug, PartialEq, Eq, Structural)]
pub enum PresentMode {
    Immediate,
    Mailbox,
    Fifo,
    FifoRelaxed,
    Other(i32),
}

/// How strict format selection is about the color space.
#[derive(Clone, Copy, Debug, PartialEq, Eq, Structural)]
pub enum FormatPolicy {
    /// Canonical rule: any 8-bit BGRA/RGBA unorm encoding is welcome.
    Relaxed,
    /// Stricter mode: additionally insist on the sRGB non-linear
    /// color space.
    StrictSrgb,
}

/// The caller's request: pixel size and how many images it wants.
#[derive(Clone, Copy, Debug, PartialEq, Eq, Structural)]
pub struct SwapchainDescriptor {
    pub width: u32,
    pub height: u32,
    pub image_count: u32,
}

/// Color-attachment usage bit of the native image-usage flags.
pub const IMAGE_USAGE_COLOR_ATTACHMENT: u32 = 0x10;

/// Native code for exclusive (single-queue) sharing.
pub const SHARING_MODE_EXCLUSIVE: u32 = 0;

/// Opaque composite-alpha bit of the native flags.
pub const COMPOSITE_ALPHA_OPAQUE: u32 = 1;

/// The native null handle: no prior swapchain is being replaced.
pub const NULL_HANDLE: u64 = 0;

/// Everything the native swapchain object is created with.
#[derive(Clone, Copy, Debug, PartialEq, Eq, Structural)]
pub struct SwapchainConfig {
    pub surface: u64,
    pub format: TextureFormat,
    pub color_space: ColorSpace,
    pub present_mode: PresentMode,
    pub extent: Extent2d,
    pub image_count: u32,
    pub array_layers: u32,
    pub image_usage: u32,
    pub sharing_mode: u32,
    pub pre_transform: u32,
    pub composite_alpha: u32,
    pub clipped: bool,
    pub old_swapchain: u64,
}

/// Guarantees every conforming driver gives about the capabilities it
/// reports: at least one image, a coherent count range, a coherent
/// extent range, and an all-or-nothing "undefined extent" sentinel.
pub open spec fn caps_valid(caps: SurfaceCapabilities) -> bool {
    &&& caps.min_image_count >= 1
    &&& caps.max_image_count == 0 || caps.min_image_count <= caps.max_image_count
    &&& caps.min_image_extent.width <= caps.max_image_extent.width
    &&& caps.min_image_extent.height <= caps.max_image_extent.height
    &&& (caps.current_extent.width == u32::MAX <==> caps.current_extent.height == u32::MAX)
}

/// The sentinel extent by which a surface reports that the
/// application decides the swapchain size.
pub open spec fn is_undefined_extent(e: Extent2d) -> bool {
    e.width == u32::MAX && e.height == u32::MAX
}

// ---------------------------------------------------------------
// Format selection
// ---------------------------------------------------------------

/// Whether a format satisfies the selection preference.
pub open spec fn format_acceptable(f: SurfaceFormat, policy: FormatPolicy) -> bool {
    &&& f.format is Bgra8Unorm || f.format is Rgba8Unorm
    &&& policy is StrictSrgb ==> f.color_space is SrgbNonlinear
}

/// `i` is the position of the first acceptable format in `s`.
pub open spec fn is_first_acceptable(s: Seq<SurfaceFormat>, policy: FormatPolicy, i: int) -> bool {
    &&& 0 <= i < s.len()
    &&& format_acceptable(s[i], policy)
    &&& forall|j: int| 0 <= j < i ==> !format_acceptable(#[trigger] s[j], policy)
}

/// The format selection picks: the first acceptable format, or the
/// first listed format when none is acceptable.
pub open spec fn spec_selected_format(s: Seq<SurfaceFormat>, policy: FormatPolicy) -> SurfaceFormat
    recommends
        s.len() > 0,
{
    if exists|i: int| is_first_acceptable(s, policy, i) {
        s[choose|i: int| is_first_acceptable(s, policy, i)]
    } else {
        s[0]
    }
}

/// At most one position is the first acceptable one.
pub proof fn lemma_first_acceptable_unique(
    s: Seq<SurfaceFormat>,
    policy: FormatPolicy,
    i: int,
    j: int,
)
    requires
        is_first_acceptable(s, policy, i),
        is_first_acceptable(s, policy, j),
    ensures
        i == j,
{
}

/// Pick the surface format: prefer the first 8-bit BGRA or RGBA unorm
/// entry (under `StrictSrgb` also requiring the sRGB non-linear color
/// space), falling back to the first listed format.
pub fn select_surface_format(formats: &Vec<SurfaceFormat>, policy: FormatPolicy) -> (r:
    SurfaceFormat)
    requires
        formats@.len() > 0,
    ensures
        r == spec_selected_format(formats@, policy),
        exists|i: int| 0 <= i < formats@.len() && r == formats@[i],
{
    let n = formats.len();
    let mut k: usize = 0;
    while k < n
        invariant
            0 <= k <= n,
            n == formats@.len(),
            formats@.len() > 0,
            forall|j: int| 0 <= j < k ==> !format_acceptable(#[trigger] formats@[j], policy),
        decreases n - k,
    {
        let f = formats[k];
        let encoding_ok = matches!(f.format, TextureFormat::Bgra8Unorm | TextureFormat::Rgba8Unorm);
        let space_ok = match policy {
            FormatPolicy::Relaxed => true,
            FormatPolicy::StrictSrgb => matches!(f.color_space, ColorSpace::SrgbNonlinear),
        };
        if encoding_ok && space_ok {
            proof {
                assert(is_first_acceptable(formats@, policy, k as int));
                let c = choose|i: int| is_first_acceptable(formats@, policy, i);
                lemma_first_acceptable_unique(formats@, policy, c, k as int);
            }
            return f;
        }
        k = k + 1;
    }
    assert(forall|i: int| !is_first_acceptable(formats@, policy, i));
    formats[0]
}

// ---------------------------------------------------------------
// Present-mode selection
// ---------------------------------------------------------------

/// The present mode the negotiation picks: mailbox when offered, else
/// FIFO when offered, else nothing — a design that finds neither must
/// fail rather than guess.
pub open spec fn spec_selected_present_mode(s: Seq<PresentMode>) -> Option<PresentMode> {
    if s.contains(PresentMode::Mailbox) {
        Some(PresentMode::Mailbox)
    } else if s.contains(PresentMode::Fifo) {
        Some(PresentMode::Fifo)
    } else {
        None
    }
}

/// Pick the present mode from the driver-reported list.
pub fn select_present_mode(modes: &Vec<PresentMode>) -> (r: Result<PresentMode, Error>)
    ensures
        match spec_selected_present_mode(modes@) {
            Some(m) => r == Ok::<PresentMode, Error>(m),
            None => r == Err::<PresentMode, Error>(Error::SwapchainNegotiationFailed),
        },
{
    let n = modes.len();
    let mut has_mailbox = false;
    let mut has_fifo = false;
    let mut k: usize = 0;
    while k < n
        invariant
            0 <= k <= n,
            n == modes@.len(),
            has_mailbox <==> exists|j: int| 0 <= j < k && modes@[j] == PresentMode::Mailbox,
            has_fifo <==> exists|j: int| 0 <= j < k && modes@[j] == PresentMode::Fifo,
        decreases n - k,
    {
        let m = modes[k];
        if matches!(m, PresentMode::Mailbox) {
            has_mailbox = true;
        }
        if matches!(m, PresentMode::Fifo) {
            has_fifo = true;
        }
        k = k + 1;
    }
    if has_mailbox {
        Ok(PresentMode::Mailbox)
    } else if has_fifo {
        Ok(PresentMode::Fifo)
    } else {
        Err(Error::SwapchainNegotiationFailed)
    }
}

/// Present-mode selection never invents a mode: its result is always
/// a member of the supported list, and mailbox is preferred over FIFO
/// whenever both are present.
pub proof fn lemma_present_mode_supported(s: Seq<PresentMode>)
    ensures
        spec_selected_present_mode(s) matches Some(m) ==> s.contains(m),
        s.contains(PresentMode::Mailbox) ==> spec_selected_present_mode(s) == Some(
            PresentMode::Mailbox,
        ),
{
}

// ---------------------------------------------------------------
// Extent resolution
// ---------------------------------------------------------------

/// `v` clamped into `[lo, hi]` (with `lo` winning below, `hi` above).
pub open spec fn clamped(v: u32, lo: u32, hi: u32) -> u32 {
    if v < lo {
        lo
    } else if v > hi {
        hi
    } else {
        v
    }
}

/// Whether the surface dictates the extent itself.
pub open spec fn has_fixed_extent(caps: SurfaceCapabilities) -> bool {
    caps.current_extent.width != u32::MAX
}

/// The extent the negotiation resolves to: the surface's own extent
/// when it reports a fixed one, otherwise the request clamped
/// per dimension into the supported range.
pub open spec fn spec_resolved_extent(
    caps: SurfaceCapabilities,
    width: u32,
    height: u32,
) -> Extent2d {
    if has_fixed_extent(caps) {
        caps.current_extent
    } else {
        Extent2d {
            width: clamped(width, caps.min_image_extent.width, caps.max_image_extent.width),
            height: clamped(height, caps.min_image_extent.height, caps.max_image_extent.height),
        }
    }
}

/// Exec mirror of `clamped`.
fn clamp_u32(v: u32, lo: u32, hi: u32) -> (r: u32)
    ensures
        r == clamped(v, lo, hi),
{
    if v < lo {
        lo
    } else if v > hi {
        hi
    } else {
        v
    }
}

/// Resolve the swapchain extent from the capabilities and the
/// caller's requested size.
pub fn resolve_extent(caps: &SurfaceCapabilities, width: u32, height: u32) -> (r: Extent2d)
    ensures
        r == spec_resolved_extent(*caps, width, height),
{
    if caps.current_extent.width != u32::MAX {
        caps.current_extent
    } else {
        Extent2d {
            width: clamp_u32(width, caps.min_image_extent.width, caps.max_image_extent.width),
            height: clamp_u32(height, caps.min_image_extent.height, caps.max_image_extent.height),
        }
    }
}

/// A surface with a fixed (non-sentinel) current extent is honoured
/// verbatim, whatever the caller requested.
pub proof fn lemma_fixed_extent_honoured(caps: SurfaceCapabilities, width: u32, height: u32)
    requires
        caps_valid(caps),
        !is_undefined_extent(caps.current_extent),
    ensures
        spec_resolved_extent(caps, width, height) == caps.current_extent,
{
}

/// Under the "undefined" sentinel extent, each dimension of the
/// result lies in its supported range, and a request already in range
/// passes through unchanged.
pub proof fn lemma_undefined_extent_clamped(caps: SurfaceCapabilities, width: u32, height: u32)
    requires
        caps_valid(caps),
        is_undefined_extent(caps.current_extent),
    ensures
        caps.min_image_extent.width <= spec_resolved_extent(caps, width, height).width
            <= caps.max_image_extent.width,
        caps.min_image_extent.height <= spec_resolved_extent(caps, width, height).height
            <= caps.max_image_extent.height,
        caps.min_image_extent.width <= width <= caps.max_image_extent.width
            ==> spec_resolved_extent(caps, width, height).width == width,
        caps.min_image_extent.height <= height <= caps.max_image_extent.height
            ==> spec_resolved_extent(caps, width, height).height == height,
{
}

// ---------------------------------------------------------------
// Image-count resolution
// ---------------------------------------------------------------

/// The image count the negotiation resolves to: the caller's request,
/// clamped down to the advertised maximum when one exists (zero means
/// unbounded), then up to the advertised minimum.
pub open spec fn spec_resolved_image_count(caps: SurfaceCapabilities, requested: u32) -> u32 {
    let capped = if caps.max_image_count > 0 && requested > caps.max_image_count {
        caps.max_image_count
    } else {
        requested
    };
    if capped < caps.min_image_count {
        caps.min_image_count
    } else {
        capped
    }
}

/// Resolve the number of presentable images from the capabilities and
/// the caller's requested count.
pub fn resolve_image_count(caps: &SurfaceCapabilities, requested: u32) -> (r: u32)
    ensures
        r == spec_resolved_image_count(*caps, requested),
{
    let mut count = requested;
    if caps.max_image_count > 0 && count > caps.max_image_count {
        count = caps.max_image_count;
    }
    if count < caps.min_image_count {
        count = caps.min_image_count;
    }
    count
}

/// The resolved image count always respects the advertised bounds:
/// with a nonzero maximum it lies in `[min, max]`; with an unbounded
/// surface only the lower bound applies.
pub proof fn lemma_image_count_bounds(caps: SurfaceCapabilities, requested: u32)
    requires
        caps_valid(caps),
    ensures
        spec_resolved_image_count(caps, requested) >= caps.min_image_count,
        caps.max_image_count > 0 ==> spec_resolved_image_count(caps, requested)
            <= caps.max_image_count,
{
}

// ---------------------------------------------------------------
// The whole negotiation
// ---------------------------------------------------------------

/// The parameters the whole negotiation resolves to, when it can:
/// the selected format and present mode, the resolved extent and
/// image count, and the fixed choices every swapchain here is created
/// with (one layer, color-attachment usage, exclusive sharing, the
/// surface's current transform, opaque composite alpha, clipped, no
/// prior swapchain). `None` exactly when no acceptable present mode
/// is offered.
pub open spec fn spec_negotiated_config(
    surface_handle: u64,
    caps: SurfaceCapabilities,
    formats: Seq<SurfaceFormat>,
    present_modes: Seq<PresentMode>,
    desc: SwapchainDescriptor,
    format_policy: FormatPolicy,
) -> Option<SwapchainConfig>
    recommends
        formats.len() > 0,
{
    match spec_selected_present_mode(present_modes) {
        Some(pm) => Some(
            SwapchainConfig {
                surface: surface_handle,
                format: spec_selected_format(formats, format_policy).format,
                color_space: spec_selected_format(formats, format_policy).color_space,
                present_mode: pm,
                extent: spec_resolved_extent(caps, desc.width, desc.height),
                image_count: spec_resolved_image_count(caps, desc.image_count),
                array_layers: 1,
                image_usage: IMAGE_USAGE_COLOR_ATTACHMENT,
                sharing_mode: SHARING_MODE_EXCLUSIVE,
                pre_transform: caps.current_transform,
                composite_alpha: COMPOSITE_ALPHA_OPAQUE,
                clipped: true,
                old_swapchain: NULL_HANDLE,
            },
        ),
        None => None,
    }
}

/// Run the full negotiation for one surface: format, present mode,
/// extent and image count, assembled into the creation parameters
/// together with the fixed choices every swapchain here is created
/// with (one layer, color-attachment usage, exclusive sharing, the
/// surface's current transform, opaque composite alpha, clipped, no
/// prior swapchain).
///
/// Fails with `Error::SwapchainNegotiationFailed` exactly when
/// neither mailbox nor FIFO presentation is offered.
pub fn negotiate_swapchain(
    surface_handle: u64,
    caps: &SurfaceCapabilities,
    formats: &Vec<SurfaceFormat>,
    present_modes: &Vec<PresentMode>,
    desc: &SwapchainDescriptor,
    format_policy: FormatPolicy,
) -> (r: Result<SwapchainConfig, Error>)
    requires
        formats@.len() > 0,
    ensures
        match spec_negotiated_config(
            surface_handle,
            *caps,
            formats@,
            present_modes@,
            *desc,
            format_policy,
        ) {
            Some(c) => r == Ok::<SwapchainConfig, Error>(c),
            None => r == Err::<SwapchainConfig, Error>(Error::SwapchainNegotiationFailed),
        },
{
    let surface_format = select_surface_format(formats, format_policy);
    let present_mode = match select_present_mode(present_modes) {
        Ok(m) => m,
        Err(e) => {
            return Err(e);
        },
    };
    let extent = resolve_extent(caps, desc.width, desc.height);
    let image_count = resolve_image_count(caps, desc.image_count);
    Ok(
        SwapchainConfig {
            surface: surface_handle,
            format: surface_format.format,
            color_space: surface_format.color_space,
            present_mode,
            extent,
            image_count,
            array_layers: 1,
            image_usage: IMAGE_USAGE_COLOR_ATTACHMENT,
            sharing_mode: SHARING_MODE_EXCLUSIVE,
            pre_transform: caps.current_transform,
            composite_alpha: COMPOSITE_ALPHA_OPAQUE,
            clipped: true,
            old_swapchain: NULL_HANDLE,
        },
    )
}

} // verus!
