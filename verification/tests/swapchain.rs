use trekanten::extent::Extent2D;
use trekanten::queue::QueueFamilies;
use trekanten::queue::QueueFamily;
use trekanten::queue::QueueFamilyInfo;
use trekanten::surface::SurfaceCapabilities;
use trekanten::surface::SurfaceFormat;
use trekanten::surface::SwapchainSupportDetails;
use trekanten::swapchain::choose_image_count;
use trekanten::swapchain::choose_swapchain_extent;
use trekanten::swapchain::choose_swapchain_surface_format;
use trekanten::swapchain::choose_swapchain_surface_present_mode;
use trekanten::swapchain::configure_swapchain;
use trekanten::swapchain::COLOR_SPACE_SRGB_NONLINEAR;
use trekanten::swapchain::FORMAT_B8G8R8A8_SRGB;
use trekanten::swapchain::PRESENT_MODE_FIFO;
use trekanten::swapchain::PRESENT_MODE_MAILBOX;
use trekanten::swapchain::SHARING_MODE_CONCURRENT;
use trekanten::swapchain::SHARING_MODE_EXCLUSIVE;

fn caps(min_count: u32, max_count: u32, current_width: u32) -> SurfaceCapabilities {
    SurfaceCapabilities {
        min_image_count: min_count,
        max_image_count: max_count,
        current_extent: Extent2D { width: current_width, height: 200 },
        min_image_extent: Extent2D { width: 100, height: 100 },
        max_image_extent: Extent2D { width: 250, height: 250 },
        current_transform: 1,
    }
}

#[test]
fn format_prefers_bgra_srgb() {
    let other = SurfaceFormat { format: 37, color_space: 0 };
    let preferred = SurfaceFormat {
        format: FORMAT_B8G8R8A8_SRGB,
        color_space: COLOR_SPACE_SRGB_NONLINEAR,
    };
    let chosen = choose_swapchain_surface_format(&vec![other, preferred]);
    assert_eq!(chosen, preferred);
}

#[test]
fn format_falls_back_to_first() {
    let a = SurfaceFormat { format: 37, color_space: 0 };
    let b = SurfaceFormat { format: 44, color_space: 0 };
    let chosen = choose_swapchain_surface_format(&vec![a, b]);
    assert_eq!(chosen, a);
}

#[test]
fn present_mode_prefers_mailbox() {
    let modes = vec![PRESENT_MODE_FIFO, PRESENT_MODE_MAILBOX];
    assert_eq!(choose_swapchain_surface_present_mode(&modes), PRESENT_MODE_MAILBOX);
}

#[test]
fn present_mode_falls_back_to_fifo() {
    let modes = vec![PRESENT_MODE_FIFO, 0];
    assert_eq!(choose_swapchain_surface_present_mode(&modes), PRESENT_MODE_FIFO);
    assert_eq!(choose_swapchain_surface_present_mode(&vec![]), PRESENT_MODE_FIFO);
}

#[test]
fn extent_uses_fixed_current_extent() {
    let c = caps(2, 0, 240);
    let e = choose_swapchain_extent(&c, Extent2D { width: 300, height: 300 });
    assert_eq!(e, Extent2D { width: 240, height: 200 });
}

#[test]
fn extent_clamps_window_size() {
    let c = caps(2, 0, u32::MAX);
    let e = choose_swapchain_extent(&c, Extent2D { width: 300, height: 50 });
    assert_eq!(e, Extent2D { width: 250, height: 100 });
}

#[test]
fn image_count_one_above_minimum() {
    assert_eq!(choose_image_count(&caps(2, 0, 240)), 3);
}

#[test]
fn image_count_capped_by_maximum() {
    assert_eq!(choose_image_count(&caps(3, 3, 240)), 3);
    assert_eq!(choose_image_count(&caps(3, 8, 240)), 4);
}

fn support() -> SwapchainSupportDetails {
    SwapchainSupportDetails {
        capabilites: caps(2, 0, 240),
        formats: vec![SurfaceFormat {
            format: FORMAT_B8G8R8A8_SRGB,
            color_space: COLOR_SPACE_SRGB_NONLINEAR,
        }],
        present_modes: vec![PRESENT_MODE_FIFO],
    }
}

fn fam(index: u32) -> QueueFamily {
    QueueFamily {
        index,
        props: QueueFamilyInfo {
            supports_graphics: true,
            supports_present: true,
            queue_count: 1,
        },
    }
}

#[test]
fn configure_exclusive_when_families_match() {
    let families = QueueFamilies { graphics: fam(0), present: fam(0) };
    let config = configure_swapchain(&support(), &families, Extent2D { width: 300, height: 300 });
    assert_eq!(config.sharing_mode, SHARING_MODE_EXCLUSIVE);
    assert!(config.queue_family_indices.is_empty());
    assert_eq!(config.present_mode, PRESENT_MODE_FIFO);
    assert_eq!(config.image_count, 3);
    assert_eq!(config.extent, Extent2D { width: 240, height: 200 });
    assert_eq!(config.pre_transform, 1);
}

#[test]
fn configure_concurrent_when_families_differ() {
    let families = QueueFamilies { graphics: fam(0), present: fam(1) };
    let config = configure_swapchain(&support(), &families, Extent2D { width: 300, height: 300 });
    assert_eq!(config.sharing_mode, SHARING_MODE_CONCURRENT);
    assert_eq!(config.queue_family_indices, vec![0, 1]);
}
