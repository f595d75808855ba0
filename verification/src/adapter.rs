//! Physical-device selection.
//!
//! A pure, deterministic total order over the devices the driver
//! enumerates: discrete GPUs first, then integrated GPUs, then CPU
//! implementations, then everything else; ties within a class are
//! broken by the original enumeration index, so repeated runs on the
//! same hardware always pick the same device.
use vstd::prelude::*;

use crate::Error;

verus! {

/// Driver-reported class of a physical device.
#[derive(Clone, Copy, Debug, PartialEq, Eq, Structural)]
pub enum DeviceClass {
    DiscreteGpu,
    IntegratedGpu,
    Cpu,
    Other,
}

/// One enumerated physical device: its native handle and its class.
/// The position in the enumeration list is the device's index.
#[derive(Clone, Copy, Debug, PartialEq, Eq, Structural)]
pub struct PhysicalDeviceInfo {
    pub handle: u64,
    pub class: DeviceClass,
}

/// Whether software device classes may be selected at all. Ranking
/// them last is the default; excluding them is an explicit choice.
#[derive(Clone, Copy, Debug, PartialEq, Eq, Structural)]
pub enum SelectionPolicy {
    /// Every class is eligible; software classes merely rank last.
    RankAll,
    /// Only discrete or integrated GPUs are eligible.
    RequireGpu,
}

/// Preference rank of a device class; lower is preferred.
pub open spec fn class_rank(c: DeviceClass) -> int {
    match c {
        DeviceClass::DiscreteGpu => 0,
        DeviceClass::IntegratedGpu => 1,
        DeviceClass::Cpu => 2,
        DeviceClass::Other => 3,
    }
}

/// Whether the policy allows a device of class `c` to be selected.
pub open spec fn admissible(c: DeviceClass, policy: SelectionPolicy) -> bool {
    match policy {
        SelectionPolicy::RankAll => true,
        SelectionPolicy::RequireGpu => c is DiscreteGpu || c is IntegratedGpu,
    }
}

/// `i` is the index selection must return for the list `s`: it is
/// admissible, no admissible device ranks better, and no earlier
/// admissible device ranks equally well.
pub open spec fn is_selected_index(
    s: Seq<PhysicalDeviceInfo>,
    policy: SelectionPolicy,
    i: int,
) -> bool {
    &&& 0 <= i < s.len()
    &&& admissible(s[i].class, policy)
    &&& forall|j: int|
        0 <= j < s.len() && admissible(#[trigger] s[j].class, policy)
            ==> class_rank(s[i].class) <= class_rank(s[j].class)
    &&& forall|j: int|
        0 <= j < i
            ==> !(admissible(#[trigger] s[j].class, policy) && class_rank(s[j].class)
                == class_rank(s[i].class))
}

/// Exec mirror of `class_rank`.
fn rank_of(c: DeviceClass) -> (r: u8)
    ensures
        r as int == class_rank(c),
{
    match c {
        DeviceClass::DiscreteGpu => 0,
        DeviceClass::IntegratedGpu => 1,
        DeviceClass::Cpu => 2,
        DeviceClass::Other => 3,
    }
}

/// Exec mirror of `admissible`.
fn is_admissible(c: DeviceClass, policy: SelectionPolicy) -> (r: bool)
    ensures
        r == admissible(c, policy),
{
    match policy {
        SelectionPolicy::RankAll => true,
        SelectionPolicy::RequireGpu => matches!(c, DeviceClass::DiscreteGpu | DeviceClass::IntegratedGpu),
    }
}

/// Choose one device from the enumeration list.
///
/// Returns the index of the first device with the best class rank
/// among the devices the policy admits; fails with
/// `Error::NoCompatibleDevice` exactly when the list holds no
/// admissible device (in particular, when it is empty).
pub fn select_physical_device(
    devices: &Vec<PhysicalDeviceInfo>,
    policy: SelectionPolicy,
) -> (r: Result<usize, Error>)
    ensures
        r matches Ok(i) ==> is_selected_index(devices@, policy, i as int),
        r is Err <==> forall|j: int|
            0 <= j < devices@.len() ==> !admissible(#[trigger] devices@[j].class, policy),
        r is Err ==> r == Err::<usize, Error>(Error::NoCompatibleDevice),
{
    let mut best: Option<usize> = None;
    let mut best_rank: u8 = 0;
    let mut k: usize = 0;
    while k < devices.len()
        invariant
            0 <= k <= devices@.len(),
            best matches Some(b) ==> {
                &&& 0 <= b < k
                &&& admissible(devices@[b as int].class, policy)
                &&& best_rank as int == class_rank(devices@[b as int].class)
                &&& forall|j: int|
                    0 <= j < k && admissible(#[trigger] devices@[j].class, policy)
                        ==> best_rank as int <= class_rank(devices@[j].class)
                &&& forall|j: int|
                    0 <= j < b
                        ==> !(admissible(#[trigger] devices@[j].class, policy) && class_rank(
                            devices@[j].class,
                        ) == best_rank as int)
            },
            best is None ==> forall|j: int|
                0 <= j < k ==> !admissible(#[trigger] devices@[j].class, policy),
        decreases devices@.len() - k,
    {
        let d = devices[k];
        if is_admissible(d.class, policy) {
            let rank = rank_of(d.class);
            match best {
                None => {
                    best = Some(k);
                    best_rank = rank;
                },
                Some(_) => {
                    if rank < best_rank {
                        best = Some(k);
                        best_rank = rank;
                    }
                },
            }
        }
        k = k + 1;
    }
    match best {
        Some(i) => Ok(i),
        None => Err(Error::NoCompatibleDevice),
    }
}

/// Selection is deterministic: the selected index of a list is unique,
/// so repeated invocations on the same list return the same device.
pub proof fn lemma_selection_deterministic(
    s: Seq<PhysicalDeviceInfo>,
    policy: SelectionPolicy,
    i: int,
    j: int,
)
    requires
        is_selected_index(s, policy, i),
        is_selected_index(s, policy, j),
    ensures
        i == j,
{
    assert(class_rank(s[i].class) <= class_rank(s[j].class));
    assert(class_rank(s[j].class) <= class_rank(s[i].class));
}

/// A discrete GPU is never ranked below an integrated or CPU device:
/// whenever the list holds any discrete device, the selected device is
/// itself discrete.
pub proof fn lemma_discrete_preferred(
    s: Seq<PhysicalDeviceInfo>,
    policy: SelectionPolicy,
    i: int,
    j: int,
)
    requires
        is_selected_index(s, policy, i),
        0 <= j < s.len(),
        s[j].class is DiscreteGpu,
    ensures
        s[i].class is DiscreteGpu,
{
    assert(admissible(s[j].class, policy));
    assert(class_rank(s[i].class) <= class_rank(s[j].class));
}

} // verus!
