//! Queue-family capability data and the linear scan that finds, for one
//! physical device, the first queue family usable for graphics work and the
//! first one usable for presenting to the surface.

use vstd::prelude::*;

verus! {

/// What the selection logic reads of one queue family, as plain values:
/// how many queues the family offers and whether it reports graphics and
/// presentation capability for the surface at hand.
#[derive(Clone, Copy, PartialEq, Eq, Structural, Debug)]
pub struct QueueFamilyInfo {
    pub queue_count: u32,
    pub supports_graphics: bool,
    pub supports_present: bool,
}

/// A family is usable for graphics when it offers at least one queue and
/// reports graphics capability.
pub open spec fn usable_for_graphics(f: QueueFamilyInfo) -> bool {
    f.queue_count > 0 && f.supports_graphics
}

/// A family is usable for presentation when it offers at least one queue and
/// reports presentation support for the surface.
pub open spec fn usable_for_present(f: QueueFamilyInfo) -> bool {
    f.queue_count > 0 && f.supports_present
}

/// Some family in the list is usable for graphics.
pub open spec fn has_graphics_family(fams: Seq<QueueFamilyInfo>) -> bool {
    exists|k: int| 0 <= k < fams.len() && usable_for_graphics(fams[k])
}

/// Some family in the list is usable for presentation.
pub open spec fn has_present_family(fams: Seq<QueueFamilyInfo>) -> bool {
    exists|k: int| 0 <= k < fams.len() && usable_for_present(fams[k])
}

/// `k` is the first index whose family is usable for graphics.
pub open spec fn first_graphics_index(fams: Seq<QueueFamilyInfo>, k: int) -> bool {
    &&& 0 <= k < fams.len()
    &&& usable_for_graphics(fams[k])
    &&& forall|j: int| 0 <= j < k ==> !usable_for_graphics(fams[j])
}

/// `k` is the first index whose family is usable for presentation.
pub open spec fn first_present_index(fams: Seq<QueueFamilyInfo>, k: int) -> bool {
    &&& 0 <= k < fams.len()
    &&& usable_for_present(fams[k])
    &&& forall|j: int| 0 <= j < k ==> !usable_for_present(fams[j])
}

/// The two queue-family indices the setup needs: one graphics-capable, one
/// presentation-capable. A negative value stands for "not found yet"; the
/// pair is complete once both are non-negative.
#[derive(Clone, Copy, PartialEq, Eq, Structural, Debug)]
pub struct QueueFamilyIndices {
    pub graphics_family: i32,
    pub present_family: i32,
}

impl QueueFamilyIndices {
    /// Both indices have been found.
    pub open spec fn complete(self) -> bool {
        self.graphics_family >= 0 && self.present_family >= 0
    }

    /// A fresh pair with neither index found.
    pub fn new() -> (r: QueueFamilyIndices)
        ensures
            r.graphics_family == -1,
            r.present_family == -1,
            !r.complete(),
    {
        QueueFamilyIndices { graphics_family: -1, present_family: -1 }
    }

    pub fn is_complete(&self) -> (r: bool)
        ensures
            r == self.complete(),
    {
        self.graphics_family >= 0 && self.present_family >= 0
    }
}

/// Scan the device's queue families in order and record, for each of the two
/// capabilities, the first family index that provides it; the scan stops as
/// soon as both are found. An index stays -1 exactly when no family in the
/// whole list provides the capability.
pub fn find_queue_family(families: &Vec<QueueFamilyInfo>) -> (r: QueueFamilyIndices)
    requires
        families@.len() <= 0x7fff_ffff,
    ensures
        r.graphics_family == -1 <==> !has_graphics_family(families@),
        r.graphics_family != -1 ==> first_graphics_index(families@, r.graphics_family as int),
        r.present_family == -1 <==> !has_present_family(families@),
        r.present_family != -1 ==> first_present_index(families@, r.present_family as int),
        r.complete() <==> has_graphics_family(families@) && has_present_family(families@),
{
    let mut indices = QueueFamilyIndices::new();
    let mut i: usize = 0;
    while i < families.len() && !indices.is_complete()
        invariant
            families@.len() <= 0x7fff_ffff,
            0 <= i <= families@.len(),
            indices.graphics_family == -1 || first_graphics_index(
                families@,
                indices.graphics_family as int,
            ),
            indices.graphics_family == -1 ==> forall|j: int|
                0 <= j < i ==> !usable_for_graphics(families@[j]),
            indices.graphics_family != -1 ==> indices.graphics_family < i,
            indices.present_family == -1 || first_present_index(
                families@,
                indices.present_family as int,
            ),
            indices.present_family == -1 ==> forall|j: int|
                0 <= j < i ==> !usable_for_present(families@[j]),
            indices.present_family != -1 ==> indices.present_family < i,
        decreases families@.len() - i,
    {
        let family = families[i];
        if indices.graphics_family < 0 && family.queue_count > 0 && family.supports_graphics {
            indices.graphics_family = i as i32;
        }
        if indices.present_family < 0 && family.queue_count > 0 && family.supports_present {
            indices.present_family = i as i32;
        }
        i = i + 1;
    }
    indices
}

} // verus!
