//! Scheduling frames in flight.
//!
//! Two frames may be in flight at once: while the GPU renders one, the CPU
//! records the next.  Each frame slot owns its synchronization objects, and
//! the scheduler tracks which frame slot last rendered to each swapchain
//! image, so a newly acquired image that is still being rendered to is
//! waited for before it is reused.

use vstd::prelude::*;
use crate::error::RenderError;
use crate::error::ResizeReason;
use crate::swapchain::SwapchainError;
use crate::swapchain::SwapchainStatus;
use crate::sync::Fence;
use crate::sync::FenceError;
use crate::sync::Semaphore;
use crate::sync::SemaphoreError;
use crate::MAX_FRAMES_IN_FLIGHT;

verus! {

/// Why creating a frame's synchronization objects failed.
#[derive(Debug, Clone, Copy, PartialEq, Eq, Structural)]
pub enum FrameSynchronizationError {
    Semaphore(SemaphoreError),
    Fence(FenceError),
}

/// The synchronization objects of one frame slot: a semaphore signaled
/// when the acquired image is available, a semaphore signaled when
/// rendering is done, and the fence the CPU waits on before reusing the
/// slot.
#[derive(Debug, Clone, Copy, PartialEq, Eq, Structural)]
pub struct FrameSynchronization {
    pub image_available: Semaphore,
    pub render_done: Semaphore,
    pub in_flight: Fence,
}

impl FrameSynchronization {
    /// Fresh synchronization for one frame slot.  The fence starts
    /// signaled, so the first wait on the slot passes at once.
    pub fn new() -> (r: Result<FrameSynchronization, FrameSynchronizationError>)
        ensures
            r matches Ok(fs) && fs.in_flight.signaled,
    {
        let image_avail = Semaphore::new();
        let render_done = Semaphore::new();
        let in_flight = Fence::signaled();

        Ok(FrameSynchronization { image_available: image_avail, render_done, in_flight })
    }
}

/// One frame being recorded: which frame slot it occupies, which swapchain
/// image it renders to, and the command buffers recorded for it so far,
/// by their handles.
#[derive(Debug, Clone, PartialEq, Eq)]
pub struct Frame {
    pub frame_idx: u32,
    pub swapchain_image_idx: u32,
    pub recorded_command_buffers: Vec<u64>,
}

impl Frame {
    /// Queue a recorded command buffer for this frame's submission.
    pub fn add_command_buffer(&mut self, cmd_buffer: u64)
        ensures
            final(self).frame_idx == old(self).frame_idx,
            final(self).swapchain_image_idx == old(self).swapchain_image_idx,
            final(self).recorded_command_buffers@ == old(self).recorded_command_buffers@.push(
                cmd_buffer,
            ),
    {
        self.recorded_command_buffers.push(cmd_buffer);
    }
}

/// The frame scheduler: the frame slot up next, and for each swapchain
/// image, the frame slot that last rendered to it (if any).
pub struct FrameScheduler {
    frame_idx: u32,
    image_to_frame_idx: Vec<Option<u32>>,
}

impl FrameScheduler {
    /// The slot up next.
    pub closed spec fn frame_idx_spec(&self) -> u32 {
        self.frame_idx
    }

    /// Which frame slot last rendered to each swapchain image.
    pub closed spec fn image_owners(&self) -> Seq<Option<u32>> {
        self.image_to_frame_idx@
    }

    /// The slot up next is one of the slots, and so is every recorded
    /// owner.
    pub open spec fn well_formed(&self) -> bool {
        &&& self.frame_idx_spec() < MAX_FRAMES_IN_FLIGHT
        &&& forall|i: int|
            0 <= i < self.image_owners().len() ==> ((#[trigger] self.image_owners()[i]) matches Some(
                f,
            ) ==> f < MAX_FRAMES_IN_FLIGHT)
    }

    /// A scheduler for a swapchain of `num_images` images: no image has
    /// been rendered to, and the first slot is up.
    pub fn new(num_images: usize) -> (r: FrameScheduler)
        ensures
            r.well_formed(),
            r.frame_idx_spec() == 0,
            r.image_owners().len() == num_images,
            forall|i: int| 0 <= i < num_images ==> r.image_owners()[i] is None,
    {
        let mut image_to_frame_idx: Vec<Option<u32>> = Vec::new();
        for j in 0..num_images
            invariant
                image_to_frame_idx@.len() == j,
                forall|i: int| 0 <= i < j ==> image_to_frame_idx@[i] is None,
        {
            image_to_frame_idx.push(None);
        }
        FrameScheduler { frame_idx: 0, image_to_frame_idx }
    }

    /// The slot up next.
    pub fn frame_idx(&self) -> (r: u32)
        ensures
            r == self.frame_idx_spec(),
    {
        self.frame_idx
    }

    /// How many swapchain images are tracked.
    pub fn num_images(&self) -> (r: usize)
        ensures
            r == self.image_owners().len(),
    {
        self.image_to_frame_idx.len()
    }

    /// Begin the next frame on a freshly acquired swapchain image.
    ///
    /// Returns the frame to record into, and — when the image is still
    /// owned by an earlier frame slot whose rendering may be in flight —
    /// that slot, whose fence must be waited on before the image is
    /// reused.  The image is recorded as now owned by this frame's slot.
    pub fn next_frame(&mut self, swapchain_image_idx: u32) -> (r: (Option<u32>, Frame))
        requires
            old(self).well_formed(),
            swapchain_image_idx < old(self).image_owners().len(),
        ensures
            final(self).well_formed(),
            r.0 == old(self).image_owners()[swapchain_image_idx as int],
            (r.0 matches Some(f) ==> f < MAX_FRAMES_IN_FLIGHT),
            final(self).image_owners() == old(self).image_owners().update(
                swapchain_image_idx as int,
                Some(old(self).frame_idx_spec()),
            ),
            final(self).frame_idx_spec() == old(self).frame_idx_spec(),
            r.1.frame_idx == old(self).frame_idx_spec(),
            r.1.swapchain_image_idx == swapchain_image_idx,
            r.1.recorded_command_buffers@.len() == 0,
    {
        let in_flight_owner = self.image_to_frame_idx[swapchain_image_idx as usize];

        self.image_to_frame_idx.set(swapchain_image_idx as usize, Some(self.frame_idx));

        let frame = Frame {
            frame_idx: self.frame_idx,
            swapchain_image_idx,
            recorded_command_buffers: Vec::new(),
        };
        (in_flight_owner, frame)
    }

    /// Finish a frame after its submission was presented.
    ///
    /// A presentation that came back suboptimal asks for a resize: the
    /// frame slot is not advanced, and the caller rebuilds the swapchain.
    /// Else the next slot is up, wrapping around the slots in flight.
    pub fn submit(&mut self, frame: &Frame, status: SwapchainStatus) -> (r: Result<
        (),
        RenderError,
    >)
        requires
            old(self).well_formed(),
            frame.frame_idx == old(self).frame_idx_spec(),
        ensures
            final(self).well_formed(),
            final(self).image_owners() == old(self).image_owners(),
            status is SubOptimal ==> r == Err::<(), RenderError>(
                RenderError::NeedsResize(ResizeReason::SubOptimal),
            ) && final(self).frame_idx_spec() == old(self).frame_idx_spec(),
            status is Optimal ==> r is Ok && final(self).frame_idx_spec() == (old(
                self,
            ).frame_idx_spec() + 1) % (MAX_FRAMES_IN_FLIGHT as int),
    {
        match status {
            SwapchainStatus::SubOptimal => Err(RenderError::NeedsResize(ResizeReason::SubOptimal)),
            SwapchainStatus::Optimal => {
                self.frame_idx = (self.frame_idx + 1) % MAX_FRAMES_IN_FLIGHT;
                Ok(())
            },
        }
    }

    /// Start over on a rebuilt swapchain of `num_images` images: no image
    /// is owned any more, while the slot up next keeps cycling from where
    /// it was.
    pub fn resize(&mut self, num_images: usize)
        requires
            old(self).well_formed(),
        ensures
            final(self).well_formed(),
            final(self).frame_idx_spec() == old(self).frame_idx_spec(),
            final(self).image_owners().len() == num_images,
            forall|i: int| 0 <= i < num_images ==> final(self).image_owners()[i] is None,
    {
        let mut image_to_frame_idx: Vec<Option<u32>> = Vec::new();
        for j in 0..num_images
            invariant
                image_to_frame_idx@.len() == j,
                forall|i: int| 0 <= i < j ==> image_to_frame_idx@[i] is None,
        {
            image_to_frame_idx.push(None);
        }
        self.image_to_frame_idx = image_to_frame_idx;
    }
}

/// Map a failure to acquire or present a swapchain image to the renderer's
/// error: a swapchain that fell out of date asks for a resize, everything
/// else is passed through.
pub fn swapchain_error_to_render_error(e: SwapchainError) -> (r: RenderError)
    ensures
        e is OutOfDate ==> r == RenderError::NeedsResize(ResizeReason::OutOfDate),
        !(e is OutOfDate) ==> r == RenderError::Swapchain(e),
{
    match e {
        SwapchainError::OutOfDate => RenderError::NeedsResize(ResizeReason::OutOfDate),
        _ => RenderError::Swapchain(e),
    }
}

} // verus!
