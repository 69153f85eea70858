use vulkan_tutorial_rust::teardown::{ResourceKind, TeardownStack};

#[test]
fn release_order_is_reverse_of_acquisition() {
    let mut stack = TeardownStack::new();
    stack.acquire(ResourceKind::Instance);
    stack.acquire(ResourceKind::Surface);
    stack.acquire(ResourceKind::DebugCallback);
    stack.acquire(ResourceKind::Device);
    stack.acquire(ResourceKind::Swapchain);
    stack.acquire(ResourceKind::ImageViews);
    assert_eq!(stack.len(), 6);
    assert_eq!(
        stack.release_order(),
        vec![
            ResourceKind::ImageViews,
            ResourceKind::Swapchain,
            ResourceKind::Device,
            ResourceKind::DebugCallback,
            ResourceKind::Surface,
            ResourceKind::Instance,
        ]
    );
}

#[test]
fn empty_stack_releases_nothing() {
    let stack = TeardownStack::new();
    assert_eq!(stack.len(), 0);
    assert_eq!(stack.release_order(), Vec::new());
}

#[test]
fn last_acquired_is_first_released() {
    let mut stack = TeardownStack::new();
    stack.acquire(ResourceKind::Instance);
    stack.acquire(ResourceKind::Surface);
    stack.acquire(ResourceKind::Device);
    let order = stack.release_order();
    assert_eq!(order[0], ResourceKind::Device);
    assert_eq!(order[order.len() - 1], ResourceKind::Instance);
}
