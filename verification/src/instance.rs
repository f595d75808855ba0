//! The process-wide driver connection and its window-system surfaces.
//!
//! Creating the native instance is the shell's job; this module owns
//! every decision around it: what the creation request asks for, how
//! a "layer not present" failure is retried exactly once with layers
//! disabled, which platform binding serves a display/window handle
//! pair, and the shared-ownership shape that keeps the instance alive
//! as long as any surface or device still refers to it.
use vstd::prelude::*;

use std::sync::Arc;

use crate::Error;
use crate::NativeOp;

verus! {

/// The driver's status code for "a requested layer is not present".
pub const ERROR_LAYER_NOT_PRESENT: i32 = -6;

/// Conclude the attempt to load the native driver library: a load
/// failure means no driver is available at all.
pub fn after_driver_load(loaded: bool) -> (r: Result<(), Error>)
    ensures
        loaded ==> r == Ok::<(), Error>(()),
        !loaded ==> r == Err::<(), Error>(Error::DriverUnavailable),
{
    if loaded {
        Ok(())
    } else {
        Err(Error::DriverUnavailable)
    }
}

/// Window-system-integration extension to enable; exactly one can be
/// active at a time.
#[derive(Clone, Copy, Debug, PartialEq, Eq, Structural)]
pub enum WsiExtension {
    Wayland,
    Xlib,
}

/// What instance creation asks of the driver. Validation layers and
/// the debug-reporting extension are development aids: they are
/// requested only for debug builds.
#[derive(Clone, Copy, Debug, PartialEq, Eq, Structural)]
pub struct InstanceRequest {
    pub enable_validation_layer: bool,
    pub enable_debug_messenger: bool,
    pub wsi: WsiExtension,
}

/// Build the instance-creation request for this process.
/// `debug_build` selects the diagnostics aids; `wayland_session`
/// reports whether a Wayland display server is active.
pub fn instance_request(debug_build: bool, wayland_session: bool) -> (r: InstanceRequest)
    ensures
        r.enable_validation_layer == debug_build,
        r.enable_debug_messenger == debug_build,
        r.wsi is Wayland <==> wayland_session,
{
    InstanceRequest {
        enable_validation_layer: debug_build,
        enable_debug_messenger: debug_build,
        wsi: if wayland_session {
            WsiExtension::Wayland
        } else {
            WsiExtension::Xlib
        },
    }
}

/// What follows one native instance-creation attempt.
#[derive(Clone, Copy, Debug, PartialEq, Eq, Structural)]
pub enum InstanceCreateDecision {
    /// The attempt succeeded; creation is complete.
    Done,
    /// The requested layer is absent; attempt once more with layers
    /// disabled.
    RetryWithoutLayers,
    /// The attempt failed for good; surface the error.
    Fail(Error),
}

/// The decision that follows a native instance-creation attempt that
/// returned `code` (`0` means success), where `with_layers` says
/// whether the attempt had validation layers enabled. A missing layer
/// is the one retryable condition, and only while layers were still
/// requested — so at most one retry ever happens.
pub open spec fn spec_after_instance_create(with_layers: bool, code: i32) -> InstanceCreateDecision {
    if code == 0 {
        InstanceCreateDecision::Done
    } else if with_layers && code == ERROR_LAYER_NOT_PRESENT {
        InstanceCreateDecision::RetryWithoutLayers
    } else {
        InstanceCreateDecision::Fail(
            Error::NativeCallFailed { operation: NativeOp::CreateInstance, native_code: code },
        )
    }
}

/// Decide what follows a native instance-creation attempt.
pub fn after_instance_create(with_layers: bool, code: i32) -> (d: InstanceCreateDecision)
    ensures
        d == spec_after_instance_create(with_layers, code),
{
    if code == 0 {
        InstanceCreateDecision::Done
    } else if with_layers && code == ERROR_LAYER_NOT_PRESENT {
        InstanceCreateDecision::RetryWithoutLayers
    } else {
        InstanceCreateDecision::Fail(
            Error::NativeCallFailed { operation: NativeOp::CreateInstance, native_code: code },
        )
    }
}

/// The fallback attempt never asks for another retry: once layers are
/// disabled, every failure is final, so creation retries at most once.
pub proof fn lemma_at_most_one_retry(code: i32)
    ensures
        !(spec_after_instance_create(false, code) is RetryWithoutLayers),
{
}

/// Conclude the optional debug-messenger setup from the native call's
/// status (`0` means success) and the messenger handle it produced.
/// Failure is deliberately non-fatal: the instance then simply runs
/// without diagnostics.
pub fn after_messenger_setup(code: i32, handle: u64) -> (r: Option<u64>)
    ensures
        code == 0 ==> r == Some(handle),
        code != 0 ==> r is None,
{
    if code == 0 {
        Some(handle)
    } else {
        None
    }
}

/// The data every dependent object shares: the native instance handle
/// and the optional debug-messenger handle. Dependents hold this
/// through a strong reference, so it outlives them all.
pub struct InstanceCore {
    pub handle: u64,
    /// `None` when messenger setup failed or was never requested;
    /// running without diagnostics is deliberate, not an error.
    pub debug_messenger: Option<u64>,
}

/// The process-wide connection to the native graphics driver; root of
/// the ownership graph. Cloning shares the same underlying connection.
pub struct Instance {
    pub core: Arc<InstanceCore>,
}

impl Clone for Instance {
    /// Share the same driver connection under a second handle.
    fn clone(&self) -> (r: Self)
        ensures
            r == *self,
    {
        Instance { core: self.core.clone() }
    }
}

impl Instance {
    /// Take ownership of a freshly created native instance, with the
    /// debug messenger that was (or was not) established for it.
    pub fn new(handle: u64, debug_messenger: Option<u64>) -> (r: Instance)
        ensures
            r.core.handle == handle,
            r.core.debug_messenger == debug_messenger,
    {
        Instance { core: Arc::new(InstanceCore { handle, debug_messenger }) }
    }
}

/// Variant of a platform display handle, as far as dispatch cares.
#[derive(Clone, Copy, Debug, PartialEq, Eq, Structural)]
pub enum DisplayHandleKind {
    Wayland,
    Xlib,
    Win32,
    Other,
}

/// Variant of a platform window handle, as far as dispatch cares.
#[derive(Clone, Copy, Debug, PartialEq, Eq, Structural)]
pub enum WindowHandleKind {
    Wayland,
    Xlib,
    Win32,
    Other,
}

/// The platform bindings this backend implements.
#[derive(Clone, Copy, Debug, PartialEq, Eq, Structural)]
pub enum SurfaceBackend {
    Wayland,
}

/// Dispatch surface creation on the platform handle pair: a Wayland
/// display with a Wayland window goes to the Wayland binding; every
/// other combination has no binding and is rejected with
/// `Error::SurfaceUnsupported`.
pub fn select_surface_backend(display: DisplayHandleKind, window: WindowHandleKind) -> (r: Result<
    SurfaceBackend,
    Error,
>)
    ensures
        display is Wayland && window is Wayland ==> r == Ok::<SurfaceBackend, Error>(
            SurfaceBackend::Wayland,
        ),
        !(display is Wayland && window is Wayland) ==> r == Err::<SurfaceBackend, Error>(
            Error::SurfaceUnsupported,
        ),
{
    match (display, window) {
        (DisplayHandleKind::Wayland, WindowHandleKind::Wayland) => Ok(SurfaceBackend::Wayland),
        _ => Err(Error::SurfaceUnsupported),
    }
}

/// A window-system binding: one native surface handle, bound to the
/// instance it was created from. The strong instance reference makes
/// it impossible to tear the instance down while the surface lives.
pub struct Surface {
    pub instance: Instance,
    pub raw: u64,
}

impl Surface {
    /// Bind a native surface handle to its owning instance.
    pub fn new(instance: &Instance, raw: u64) -> (r: Surface)
        ensures
            r.instance == *instance,
            r.raw == raw,
    {
        Surface { instance: instance.clone(), raw }
    }
}

} // verus!
