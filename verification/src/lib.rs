//! Verified core of a Vulkan setup walkthrough: queue-family discovery,
//! physical-device selection, queue-creation planning, event-loop decisions,
//! and reverse-order resource teardown. All graphics-API and windowing calls
//! live outside this library; it works on plain capability data.

pub mod config;
pub mod device;
pub mod events;
pub mod pipeline;
pub mod queue_family;
pub mod teardown;
