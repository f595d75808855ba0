//! A thin rendering-hardware interface: the object lifecycle and the
//! negotiation engine that sit above a native low-level graphics driver.
//!
//! The library owns every decision the backend makes: which physical
//! device to use, which queue family, how swapchain parameters are
//! negotiated from driver-reported capabilities, how instance creation
//! falls back when a validation layer is absent, and how a command
//! encoder moves from recording to finished. Native driver calls are
//! performed by an unverified shell around this crate; the shell feeds
//! driver-reported values in and carries the returned plans out.
use vstd::prelude::*;

verus! {

/// Identifies the native driver call that failed, for error reports.
#[derive(Clone, Copy, Debug, PartialEq, Eq, Structural)]
pub enum NativeOp {
    CreateInstance,
    CreateSurface,
    EnumeratePhysicalDevices,
    QuerySurfaceCapabilities,
    QuerySurfaceFormats,
    QueryPresentModes,
    CreateSwapchain,
    GetSwapchainImages,
    CreateImageView,
    CreateCommandPool,
    AllocateCommandBuffer,
    BeginCommandBuffer,
    EndCommandBuffer,
}

/// Uniform error model for the whole interface: every native failure
/// and every unsupported request maps to exactly one of these.
#[derive(Clone, Copy, Debug, PartialEq, Eq, Structural)]
pub enum Error {
    /// The native driver library could not be loaded.
    DriverUnavailable,
    /// Physical-device enumeration returned an empty list, or the
    /// selection policy rejected every enumerated device.
    NoCompatibleDevice,
    /// Logical-device creation failed.
    DeviceCreationFailed,
    /// No platform binding exists for the given display/window handles.
    SurfaceUnsupported,
    /// No acceptable present mode was offered by the driver.
    SwapchainNegotiationFailed,
    /// A native call failed with the driver's own status code.
    NativeCallFailed { operation: NativeOp, native_code: i32 },
}

/// Description of a render pass to record. Currently carries nothing:
/// attachments and clear values are outside this interface's scope.
pub struct RHIRenderPassDescriptor {}

/// Marker for a scoped render-pass recording context.
pub trait RHICommandEncoderRenderPass {
}

} // verus!

pub mod adapter;
pub mod command;
pub mod device;
pub mod instance;
pub mod negotiate;
pub mod swapchain;
