//! Choosing a swapchain configuration from what the surface supports.
//!
//! The surface reports its formats, present modes and capabilities; the
//! functions here pick the configuration the renderer asks the API for.

use vstd::prelude::*;
use crate::extent::Extent2D;
use crate::framebuffer::FramebufferError;
use crate::image::ImageViewError;
use crate::queue::QueueFamilies;
use crate::surface::SurfaceCapabilities;
use crate::surface::SurfaceFormat;
use crate::surface::SwapchainSupportDetails;
use crate::util::clamp;
use crate::util::clamp_spec;

verus! {

/// Why a swapchain operation failed: an API result code from creation or
/// presentation, a failure creating the per-image objects, or the surface
/// having changed so the swapchain no longer matches it.
#[derive(Debug, Clone, Copy, PartialEq, Eq, Structural)]
pub enum SwapchainError {
    Creation(i32),
    ImageCreation(i32),
    ImageViewCreation(ImageViewError),
    FramebufferCreation(FramebufferError),
    AcquireNextImage(i32),
    EnqueuePresent(i32),
    OutOfDate,
}

/// Whether a presented image still matched the surface exactly.
#[derive(Debug, Clone, Copy, PartialEq, Eq, Structural)]
pub enum SwapchainStatus {
    Optimal,
    SubOptimal,
}

/// The part of a swapchain's configuration that later decisions read: the
/// image format code and the image extent.
#[derive(Debug, Clone, Copy, PartialEq, Eq, Structural)]
pub struct SwapchainInfo {
    pub format: i32,
    pub extent: Extent2D,
}

/// Pixel format code of `B8G8R8A8_SRGB`, the format preferred for the
/// swapchain images.
pub const FORMAT_B8G8R8A8_SRGB: i32 = 50;

/// Color space code of `SRGB_NONLINEAR`, the color space preferred for the
/// swapchain images.
pub const COLOR_SPACE_SRGB_NONLINEAR: i32 = 0;

/// Present mode code of `MAILBOX`: render ahead and present the latest
/// finished image.
pub const PRESENT_MODE_MAILBOX: i32 = 1;

/// Present mode code of `FIFO`: queue images first-in first-out.  Every
/// conforming device offers it.
pub const PRESENT_MODE_FIFO: i32 = 2;

/// Image sharing mode code of `EXCLUSIVE`: one queue family owns the
/// images.
pub const SHARING_MODE_EXCLUSIVE: i32 = 0;

/// Image sharing mode code of `CONCURRENT`: several queue families may
/// touch the images without ownership transfers.
pub const SHARING_MODE_CONCURRENT: i32 = 1;

/// Whether a reported surface format is the one the renderer prefers.
pub open spec fn is_preferred_format(f: SurfaceFormat) -> bool {
    f.format == FORMAT_B8G8R8A8_SRGB && f.color_space == COLOR_SPACE_SRGB_NONLINEAR
}

/// Whether `r` is the format the renderer picks from `formats`: the first
/// preferred one, or the first reported one when none is preferred.
pub open spec fn is_chosen_format(formats: Seq<SurfaceFormat>, r: SurfaceFormat) -> bool {
    if exists|i: int| 0 <= i < formats.len() && is_preferred_format(#[trigger] formats[i]) {
        exists|i: int|
            0 <= i < formats.len() && r == formats[i] && is_preferred_format(#[trigger] formats[i])
                && forall|j: int| 0 <= j < i ==> !is_preferred_format(#[trigger] formats[j])
    } else {
        r == formats[0]
    }
}

/// Whether `r` is the present mode the renderer picks from `pmodes`:
/// `MAILBOX` when offered, else `FIFO`.
pub open spec fn is_chosen_present_mode(pmodes: Seq<i32>, r: i32) -> bool {
    if exists|i: int| 0 <= i < pmodes.len() && #[trigger] pmodes[i] == PRESENT_MODE_MAILBOX {
        r == PRESENT_MODE_MAILBOX
    } else {
        r == PRESENT_MODE_FIFO
    }
}

/// Pick the surface format: the first reported format that is preferred,
/// or the first reported format when none is.
pub fn choose_swapchain_surface_format(formats: &Vec<SurfaceFormat>) -> (r: SurfaceFormat)
    requires
        formats@.len() > 0,
    ensures
        is_chosen_format(formats@, r),
{
    let n = formats.len();
    for i in 0..n
        invariant
            n == formats@.len(),
            n > 0,
            forall|j: int| 0 <= j < i ==> !is_preferred_format(formats@[j]),
    {
        let f = formats[i];
        if f.format == FORMAT_B8G8R8A8_SRGB && f.color_space == COLOR_SPACE_SRGB_NONLINEAR {
            return f;
        }
    }
    formats[0]
}

/// Pick the present mode: `MAILBOX` when the surface offers it, else
/// `FIFO`, which is always available.
pub fn choose_swapchain_surface_present_mode(pmodes: &Vec<i32>) -> (r: i32)
    ensures
        is_chosen_present_mode(pmodes@, r),
{
    let n = pmodes.len();
    for i in 0..n
        invariant
            n == pmodes@.len(),
            forall|j: int| 0 <= j < i ==> pmodes@[j] != PRESENT_MODE_MAILBOX,
    {
        if pmodes[i] == PRESENT_MODE_MAILBOX {
            return PRESENT_MODE_MAILBOX;
        }
    }
    PRESENT_MODE_FIFO
}

/// What `choose_swapchain_extent` returns: the surface's current extent
/// when it is fixed, else the window size clamped into the allowed range.
pub open spec fn chosen_extent_spec(capabilites: SurfaceCapabilities, window: Extent2D) -> Extent2D {
    if capabilites.current_extent.width != u32::MAX {
        capabilites.current_extent
    } else {
        Extent2D {
            width: clamp_spec(
                window.width,
                capabilites.min_image_extent.width,
                capabilites.max_image_extent.width,
            ),
            height: clamp_spec(
                window.height,
                capabilites.min_image_extent.height,
                capabilites.max_image_extent.height,
            ),
        }
    }
}

/// Pick the swapchain extent for a window of size `window`.  A surface
/// whose current extent has width `u32::MAX` lets the swapchain choose;
/// then the window size is used, clamped to what the surface allows.
pub fn choose_swapchain_extent(capabilites: &SurfaceCapabilities, window: Extent2D) -> (r: Extent2D)
    ensures
        r == chosen_extent_spec(*capabilites, window),
{
    if capabilites.current_extent.width != u32::MAX {
        capabilites.current_extent
    } else {
        Extent2D {
            width: clamp(
                window.width,
                capabilites.min_image_extent.width,
                capabilites.max_image_extent.width,
            ),
            height: clamp(
                window.height,
                capabilites.min_image_extent.height,
                capabilites.max_image_extent.height,
            ),
        }
    }
}

/// What `choose_image_count` returns: one more image than the minimum, for
/// slack, capped by the maximum when the surface reports one (a maximum of
/// zero means unlimited).
pub open spec fn chosen_image_count_spec(capabilites: SurfaceCapabilities) -> u32 {
    let wanted = capabilites.min_image_count + 1;
    if capabilites.max_image_count > 0 && wanted > capabilites.max_image_count {
        capabilites.max_image_count
    } else {
        wanted as u32
    }
}

/// Pick how many images the swapchain is asked for.
pub fn choose_image_count(capabilites: &SurfaceCapabilities) -> (r: u32)
    requires
        capabilites.min_image_count < u32::MAX,
    ensures
        r == chosen_image_count_spec(*capabilites),
{
    let wanted = capabilites.min_image_count + 1;
    if capabilites.max_image_count > 0 && wanted > capabilites.max_image_count {
        capabilites.max_image_count
    } else {
        wanted
    }
}

/// A full swapchain configuration, ready to be handed to the API: the
/// chosen format, extent, image count and present mode, and how the images
/// are shared between the graphics and present queue families.
#[derive(Debug, Clone, PartialEq, Eq)]
pub struct SwapchainConfig {
    pub format: SurfaceFormat,
    pub extent: Extent2D,
    pub image_count: u32,
    pub present_mode: i32,
    pub sharing_mode: i32,
    pub queue_family_indices: Vec<u32>,
    pub pre_transform: u32,
}

/// Configure a swapchain from what the surface supports and the two queue
/// families in use.  Format, present mode, extent and image count follow
/// the choice functions above; when graphics and present are different
/// families the images are shared concurrently between the two, else one
/// family owns them exclusively.
pub fn configure_swapchain(
    support: &SwapchainSupportDetails,
    queue_families: &QueueFamilies,
    window: Extent2D,
) -> (r: SwapchainConfig)
    requires
        support.formats@.len() > 0,
        support.capabilites.min_image_count < u32::MAX,
    ensures
        is_chosen_format(support.formats@, r.format),
        is_chosen_present_mode(support.present_modes@, r.present_mode),
        r.extent == chosen_extent_spec(support.capabilites, window),
        r.image_count == chosen_image_count_spec(support.capabilites),
        queue_families.graphics.index != queue_families.present.index ==> r.sharing_mode
            == SHARING_MODE_CONCURRENT && r.queue_family_indices@ == seq![
            queue_families.graphics.index,
            queue_families.present.index,
        ],
        queue_families.graphics.index == queue_families.present.index ==> r.sharing_mode
            == SHARING_MODE_EXCLUSIVE && r.queue_family_indices@.len() == 0,
        r.pre_transform == support.capabilites.current_transform,
{
    let format = choose_swapchain_surface_format(&support.formats);
    let present_mode = choose_swapchain_surface_present_mode(&support.present_modes);
    let extent = choose_swapchain_extent(&support.capabilites, window);
    let image_count = choose_image_count(&support.capabilites);

    let mut queue_family_indices: Vec<u32> = Vec::new();
    let sharing_mode: i32;
    if queue_families.graphics.index != queue_families.present.index {
        queue_family_indices.push(queue_families.graphics.index);
        queue_family_indices.push(queue_families.present.index);
        sharing_mode = SHARING_MODE_CONCURRENT;
        proof {
            assert(queue_family_indices@ =~= seq![
                queue_families.graphics.index,
                queue_families.present.index,
            ]);
        }
    } else {
        sharing_mode = SHARING_MODE_EXCLUSIVE;
    }

    SwapchainConfig {
        format,
        extent,
        image_count,
        present_mode,
        sharing_mode,
        queue_family_indices,
        pre_transform: support.capabilites.current_transform,
    }
}

} // verus!
