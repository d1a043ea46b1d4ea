//! Queue families as the device selection reads them.

use vstd::prelude::*;
use crate::sync::FenceError;

verus! {

/// Why submitting to a queue failed: the API result code of the submit
/// itself, or a fence error while waiting for the submission.
#[derive(Debug, Clone, Copy, PartialEq, Eq, Structural)]
pub enum QueueError {
    Submit(i32),
    Fence(FenceError),
}

/// What the renderer reads of one queue family: whether its queues can run
/// graphics commands, whether they can present to the surface at hand, and
/// how many queues the family offers.
#[derive(Debug, Clone, Copy, PartialEq, Eq, Structural)]
pub struct QueueFamilyInfo {
    pub supports_graphics: bool,
    pub supports_present: bool,
    pub queue_count: u32,
}

/// A queue family chosen for a role, by its index among the device's
/// families, together with what was read of it.
#[derive(Debug, Clone, Copy, PartialEq, Eq, Structural)]
pub struct QueueFamily {
    pub index: u32,
    pub props: QueueFamilyInfo,
}

/// The two queue families a device is driven through.
#[derive(Debug, Clone, Copy, PartialEq, Eq, Structural)]
pub struct QueueFamilies {
    pub graphics: QueueFamily,
    pub present: QueueFamily,
}

} // verus!
