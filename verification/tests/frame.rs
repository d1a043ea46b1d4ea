use trekanten::descriptor::DescriptorSet;
use trekanten::descriptor::DescriptorSets;
use trekanten::error::RenderError;
use trekanten::error::ResizeReason;
use trekanten::frame::swapchain_error_to_render_error;
use trekanten::frame::FrameScheduler;
use trekanten::frame::FrameSynchronization;
use trekanten::swapchain::SwapchainError;
use trekanten::swapchain::SwapchainStatus;

#[test]
fn frame_synchronization_fence_starts_signaled() {
    let fs = FrameSynchronization::new().expect("sync objects");
    assert!(fs.in_flight.signaled);
}

#[test]
fn scheduler_starts_at_slot_zero() {
    let s = FrameScheduler::new(3);
    assert_eq!(s.frame_idx(), 0);
    assert_eq!(s.num_images(), 3);
}

#[test]
fn slots_alternate_over_frames() {
    let mut s = FrameScheduler::new(3);

    let (wait, frame) = s.next_frame(0);
    assert!(wait.is_none());
    assert_eq!(frame.frame_idx, 0);
    assert_eq!(frame.swapchain_image_idx, 0);
    assert!(s.submit(&frame, SwapchainStatus::Optimal).is_ok());
    assert_eq!(s.frame_idx(), 1);

    let (wait, frame) = s.next_frame(1);
    assert!(wait.is_none());
    assert_eq!(frame.frame_idx, 1);
    assert!(s.submit(&frame, SwapchainStatus::Optimal).is_ok());
    assert_eq!(s.frame_idx(), 0);
}

#[test]
fn reacquired_image_names_its_owner() {
    let mut s = FrameScheduler::new(2);

    let (_, frame) = s.next_frame(0);
    s.submit(&frame, SwapchainStatus::Optimal).unwrap();
    let (_, frame) = s.next_frame(1);
    s.submit(&frame, SwapchainStatus::Optimal).unwrap();

    // Image 0 was last rendered to by frame slot 0, which may still be in
    // flight: the scheduler says so.
    let (wait, frame) = s.next_frame(0);
    assert_eq!(wait, Some(0));
    assert_eq!(frame.frame_idx, 0);
}

#[test]
fn suboptimal_present_asks_for_resize() {
    let mut s = FrameScheduler::new(2);
    let (_, frame) = s.next_frame(0);
    let r = s.submit(&frame, SwapchainStatus::SubOptimal);
    assert!(matches!(r, Err(RenderError::NeedsResize(ResizeReason::SubOptimal))));
    assert_eq!(s.frame_idx(), 0);
}

#[test]
fn resize_forgets_image_owners() {
    let mut s = FrameScheduler::new(2);
    let (_, frame) = s.next_frame(1);
    s.submit(&frame, SwapchainStatus::Optimal).unwrap();

    s.resize(4);
    assert_eq!(s.num_images(), 4);
    assert_eq!(s.frame_idx(), 1);
    let (wait, _) = s.next_frame(1);
    assert!(wait.is_none());
}

#[test]
fn frame_collects_command_buffers() {
    let mut s = FrameScheduler::new(1);
    let (_, mut frame) = s.next_frame(0);
    assert!(frame.recorded_command_buffers.is_empty());
    frame.add_command_buffer(0xAB);
    frame.add_command_buffer(0xCD);
    assert_eq!(frame.recorded_command_buffers, vec![0xAB, 0xCD]);
}

#[test]
fn descriptor_sets_pair_per_frame_slot() {
    let mut sets = DescriptorSets::new();
    let h = sets.create(
        DescriptorSet { vk_descriptor_set: 0x10 },
        DescriptorSet { vk_descriptor_set: 0x20 },
    );
    assert_eq!(sets.get(&h, 0).map(|s| s.vk_descriptor_set), Some(0x10));
    assert_eq!(sets.get(&h, 1).map(|s| s.vk_descriptor_set), Some(0x20));
    assert!(sets.get(&trekanten::resource::Handle::new(9), 0).is_none());
}

#[test]
fn out_of_date_swapchain_asks_for_resize() {
    let r = swapchain_error_to_render_error(SwapchainError::OutOfDate);
    assert!(matches!(r, RenderError::NeedsResize(ResizeReason::OutOfDate)));

    let r = swapchain_error_to_render_error(SwapchainError::AcquireNextImage(-4));
    assert!(matches!(r, RenderError::Swapchain(SwapchainError::AcquireNextImage(-4))));
}
