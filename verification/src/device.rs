//! Physical-device selection and logical-device queue planning.
//!
//! A device qualifies when some queue family is usable for graphics and some
//! family (possibly the same one) is usable for presentation; the first
//! qualifying device in enumeration order wins, with no further scoring.
//! Queue-creation planning deduplicates the two family indices, since
//! requesting the same family twice is invalid.

use vstd::prelude::*;

use crate::queue_family::{
    find_queue_family, has_graphics_family, has_present_family, QueueFamilyIndices,
    QueueFamilyInfo,
};

verus! {

/// What the selection logic reads of one physical device: its queue families'
/// capabilities, in the order the device reports them.
#[derive(Clone, Debug)]
pub struct DeviceProfile {
    pub queue_families: Vec<QueueFamilyInfo>,
}

impl DeviceProfile {
    /// The reported queue families, as a sequence.
    pub open spec fn families(self) -> Seq<QueueFamilyInfo> {
        self.queue_families@
    }
}

/// A device is suitable when it has a graphics-capable queue family and a
/// presentation-capable one (possibly the same family).
pub open spec fn device_suitable(d: DeviceProfile) -> bool {
    has_graphics_family(d.families()) && has_present_family(d.families())
}

/// The one failure the setup knows: no enumerated device qualifies.
#[derive(Clone, Copy, PartialEq, Eq, Structural, Debug)]
pub enum SetupError {
    NoSuitableGpu,
}

impl SetupError {
    /// The message the application aborts with.
    pub fn description(&self) -> (r: String)
        ensures
            r@ == "Failed to find a suitable GPU!"@,
    {
        "Failed to find a suitable GPU!".to_string()
    }
}

/// Whether this device has both a graphics-capable and a presentation-capable
/// queue family.
pub fn is_physical_device_suitable(device: &DeviceProfile) -> (r: bool)
    requires
        device.families().len() <= 0x7fff_ffff,
    ensures
        r == device_suitable(*device),
{
    let indices = find_queue_family(&device.queue_families);
    indices.is_complete()
}

/// Pick the first suitable device, by its position in enumeration order.
/// Fails exactly when no device in the list is suitable.
pub fn pick_physical_device(devices: &Vec<DeviceProfile>) -> (r: Result<usize, SetupError>)
    requires
        forall|k: int| 0 <= k < devices@.len() ==> devices@[k].families().len() <= 0x7fff_ffff,
    ensures
        r is Ok <==> exists|k: int| 0 <= k < devices@.len() && device_suitable(devices@[k]),
        r matches Ok(i) ==> 0 <= i < devices@.len() && device_suitable(devices@[i as int])
            && forall|j: int| 0 <= j < i as int ==> !device_suitable(devices@[j]),
        r matches Err(e) ==> e == SetupError::NoSuitableGpu,
{
    let mut i: usize = 0;
    while i < devices.len()
        invariant
            forall|k: int| 0 <= k < devices@.len() ==> devices@[k].families().len() <= 0x7fff_ffff,
            0 <= i <= devices@.len(),
            forall|j: int| 0 <= j < i ==> !device_suitable(devices@[j]),
        decreases devices@.len() - i,
    {
        if is_physical_device_suitable(&devices[i]) {
            return Ok(i);
        }
        i = i + 1;
    }
    Err(SetupError::NoSuitableGpu)
}

/// One queue-creation descriptor of the logical-device plan: which family to
/// take queues from, and how many (this walkthrough always asks for one).
#[derive(Clone, Copy, PartialEq, Eq, Structural, Debug)]
pub struct QueueCreateDescriptor {
    pub queue_family_index: u32,
    pub queue_count: u32,
}

/// Build the queue-creation descriptors for a complete pair of family
/// indices, deduplicating the pair: one descriptor when graphics and
/// presentation share a family, two otherwise, one queue each.
pub fn queue_create_plan(indices: &QueueFamilyIndices) -> (r: Vec<QueueCreateDescriptor>)
    requires
        indices.complete(),
    ensures
        indices.graphics_family == indices.present_family ==> r@ =~= seq![
            QueueCreateDescriptor {
                queue_family_index: indices.graphics_family as u32,
                queue_count: 1,
            },
        ],
        indices.graphics_family != indices.present_family ==> r@ =~= seq![
            QueueCreateDescriptor {
                queue_family_index: indices.graphics_family as u32,
                queue_count: 1,
            },
            QueueCreateDescriptor {
                queue_family_index: indices.present_family as u32,
                queue_count: 1,
            },
        ],
        r@.len() == if indices.graphics_family == indices.present_family {
            1int
        } else {
            2int
        },
        forall|a: int, b: int|
            0 <= a < b < r@.len() ==> r@[a].queue_family_index != r@[b].queue_family_index,
{
    let mut plan: Vec<QueueCreateDescriptor> = Vec::new();
    plan.push(
        QueueCreateDescriptor {
            queue_family_index: indices.graphics_family as u32,
            queue_count: 1,
        },
    );
    if indices.present_family != indices.graphics_family {
        plan.push(
            QueueCreateDescriptor {
                queue_family_index: indices.present_family as u32,
                queue_count: 1,
            },
        );
    }
    plan
}

} // verus!
