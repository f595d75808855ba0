//! The logical device bound to a chosen physical device.
//!
//! Queue-family selection is the decision made here: the first family
//! reporting graphics capability is chosen, and when none does, the
//! selection falls back to family 0 — a documented gap, not a silent
//! guarantee. The device keeps its owning instance alive through a
//! strong reference and is itself shared by every swapchain and
//! command encoder created from it.
use vstd::prelude::*;

use std::sync::Arc;

use crate::instance::Instance;
use crate::Error;

verus! {

/// What the driver reports about one queue family, as far as this
/// interface reads it: whether it can run graphics work.
#[derive(Clone, Copy, Debug, PartialEq, Eq, Structural)]
pub struct QueueFamily {
    pub supports_graphics: bool,
}

/// `i` is the queue family the device must use for the family list
/// `s`: the first family reporting graphics capability, or family 0
/// when none qualifies (the documented fallback).
pub open spec fn is_graphics_family_choice(s: Seq<QueueFamily>, i: int) -> bool {
    if exists|j: int| 0 <= j < s.len() && (#[trigger] s[j]).supports_graphics {
        &&& 0 <= i < s.len()
        &&& s[i].supports_graphics
        &&& forall|j: int| 0 <= j < i ==> !(#[trigger] s[j]).supports_graphics
    } else {
        i == 0
    }
}

/// Select the queue family for graphics work.
pub fn select_graphics_queue_family(families: &Vec<QueueFamily>) -> (r: u32)
    requires
        families@.len() <= u32::MAX,
    ensures
        is_graphics_family_choice(families@, r as int),
{
    let n = families.len();
    let mut k: usize = 0;
    while k < n
        invariant
            0 <= k <= n,
            n == families@.len(),
            n <= u32::MAX,
            forall|j: int| 0 <= j < k ==> !(#[trigger] families@[j]).supports_graphics,
        decreases n - k,
    {
        if families[k].supports_graphics {
            return k as u32;
        }
        k = k + 1;
    }
    0
}

/// Conclude a native logical-device creation from its status code
/// (`0` means success) and the device handle it produced. Any
/// failure surfaces as `Error::DeviceCreationFailed`.
pub fn after_device_create(code: i32, handle: u64) -> (r: Result<u64, Error>)
    ensures
        code == 0 ==> r == Ok::<u64, Error>(handle),
        code != 0 ==> r == Err::<u64, Error>(Error::DeviceCreationFailed),
{
    if code == 0 {
        Ok(handle)
    } else {
        Err(Error::DeviceCreationFailed)
    }
}

/// The device-level state every dependent object shares: the owning
/// instance, the native logical-device handle, the chosen queue
/// family, the queue handle retrieved from it (when one was), and the
/// physical device the logical device is bound to.
pub struct DeviceCore {
    pub instance: Instance,
    pub handle: u64,
    pub graphics_queue_family: u32,
    pub graphics_queue: Option<u64>,
    pub physical_device: u64,
    /// The queue-family list the device was created against; kept in
    /// ghost form so the family choice stays checkable for the
    /// device's whole life.
    pub families: Ghost<Seq<QueueFamily>>,
}

/// A configured logical device. Cloning shares the same underlying
/// device; the device keeps its instance alive as long as it exists.
pub struct Device {
    pub core: Arc<DeviceCore>,
}

impl Clone for Device {
    /// Share the same logical device under a second handle.
    fn clone(&self) -> (r: Self)
        ensures
            r == *self,
    {
        Device { core: self.core.clone() }
    }
}

impl Device {
    /// The device's standing invariant: its graphics queue family is
    /// the one selection mandates for the family list it was created
    /// against.
    pub open spec fn wf(self) -> bool {
        is_graphics_family_choice(self.core.families@, self.core.graphics_queue_family as int)
    }

    /// Assemble the device around a freshly created native logical
    /// device: bind it to its owning instance and physical device and
    /// record the queue family chosen from `families`.
    pub fn new(
        instance: &Instance,
        physical_device: u64,
        families: &Vec<QueueFamily>,
        handle: u64,
        graphics_queue: Option<u64>,
    ) -> (r: Device)
        requires
            families@.len() <= u32::MAX,
        ensures
            r.wf(),
            r.core.instance == *instance,
            r.core.handle == handle,
            r.core.physical_device == physical_device,
            r.core.graphics_queue == graphics_queue,
            r.core.families@ == families@,
            is_graphics_family_choice(families@, r.core.graphics_queue_family as int),
    {
        let graphics_queue_family = select_graphics_queue_family(families);
        Device {
            core: Arc::new(
                DeviceCore {
                    instance: instance.clone(),
                    handle,
                    graphics_queue_family,
                    graphics_queue,
                    physical_device,
                    families: Ghost(families@),
                },
            ),
        }
    }
}

} // verus!
