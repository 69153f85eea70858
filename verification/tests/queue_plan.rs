use vulkan_tutorial_rust::device::{queue_create_plan, QueueCreateDescriptor};
use vulkan_tutorial_rust::queue_family::QueueFamilyIndices;

#[test]
fn shared_family_yields_one_descriptor() {
    let indices = QueueFamilyIndices { graphics_family: 3, present_family: 3 };
    let plan = queue_create_plan(&indices);
    assert_eq!(plan.len(), 1);
    assert_eq!(plan[0], QueueCreateDescriptor { queue_family_index: 3, queue_count: 1 });
}

#[test]
fn distinct_families_yield_two_descriptors() {
    let indices = QueueFamilyIndices { graphics_family: 0, present_family: 2 };
    let plan = queue_create_plan(&indices);
    assert_eq!(plan.len(), 2);
    assert_eq!(plan[0], QueueCreateDescriptor { queue_family_index: 0, queue_count: 1 });
    assert_eq!(plan[1], QueueCreateDescriptor { queue_family_index: 2, queue_count: 1 });
}

#[test]
fn every_descriptor_requests_one_queue() {
    let indices = QueueFamilyIndices { graphics_family: 5, present_family: 7 };
    for descriptor in queue_create_plan(&indices) {
        assert_eq!(descriptor.queue_count, 1);
    }
}

#[test]
fn fresh_indices_are_incomplete() {
    let indices = QueueFamilyIndices::new();
    assert_eq!(indices.graphics_family, -1);
    assert_eq!(indices.present_family, -1);
    assert!(!indices.is_complete());
}

#[test]
fn completeness_needs_both_indices() {
    let only_graphics = QueueFamilyIndices { graphics_family: 0, present_family: -1 };
    assert!(!only_graphics.is_complete());
    let only_present = QueueFamilyIndices { graphics_family: -1, present_family: 0 };
    assert!(!only_present.is_complete());
    let both = QueueFamilyIndices { graphics_family: 0, present_family: 1 };
    assert!(both.is_complete());
}
