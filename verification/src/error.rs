//! The renderer's top-level error.

use vstd::prelude::*;
use crate::command::CommandError;
use crate::descriptor::DescriptorSetError;
use crate::device::DeviceError;
use crate::instance::InstanceError;
use crate::mem::MemoryError;
use crate::pipeline::PipelineError;
use crate::queue::QueueError;
use crate::render_pass::RenderPassError;
use crate::surface::SurfaceError;
use crate::swapchain::SwapchainError;
use crate::sync::FenceError;
use crate::vk_debug::DebugUtilsError;

verus! {

/// Why the swapchain must be rebuilt: the surface changed so presentation
/// failed outright, or it still worked but no longer matched exactly.
#[derive(Debug, Clone, Copy, PartialEq, Eq, Structural)]
pub enum ResizeReason {
    OutOfDate,
    SubOptimal,
}

/// Everything that can go wrong over a frame, by the component it went
/// wrong in.  `NeedsResize` is not a failure but a request: rebuild the
/// swapchain and try again.
#[derive(Debug, Clone)]
pub enum RenderError {
    Command(CommandError),
    Instance(InstanceError),
    DebugUtils(DebugUtilsError),
    Surface(SurfaceError),
    Device(DeviceError),
    Swapchain(SwapchainError),
    RenderPass(RenderPassError),
    Pipeline(PipelineError),
    Frame(crate::frame::FrameSynchronizationError),
    Fence(FenceError),
    Queue(QueueError),
    VertexBuffer(MemoryError),
    IndexBuffer(MemoryError),
    NeedsResize(ResizeReason),
    MissingUniformBuffersForDescriptor,
    DescriptorSet(DescriptorSetError),
}

} // verus!
