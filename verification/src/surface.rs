//! What the renderer reads of a window surface.

use vstd::prelude::*;
use crate::extent::Extent2D;

verus! {

/// Why a surface operation failed, by the API result code returned.
#[derive(Debug, Clone, Copy, PartialEq, Eq, Structural)]
pub enum SurfaceError {
    Creation(i32),
    SupportQuery(i32),
    CapabilitesQuery(i32),
    FormatsQuery(i32),
    PresentModesQuery(i32),
}

/// A surface format: the pixel format code paired with the color space
/// code, both as the graphics API numbers them.
#[derive(Debug, Clone, Copy, PartialEq, Eq, Structural)]
pub struct SurfaceFormat {
    pub format: i32,
    pub color_space: i32,
}

/// The surface capabilities the swapchain configuration reads: the allowed
/// range of image counts (a maximum of zero meaning unlimited), the current
/// extent (`u32::MAX` width standing for "whatever the swapchain chooses"),
/// the allowed extent range, and the current transform bits.
#[derive(Debug, Clone, Copy, PartialEq, Eq, Structural)]
pub struct SurfaceCapabilities {
    pub min_image_count: u32,
    pub max_image_count: u32,
    pub current_extent: Extent2D,
    pub min_image_extent: Extent2D,
    pub max_image_extent: Extent2D,
    pub current_transform: u32,
}

/// Everything queried from a surface for one physical device before a
/// swapchain is configured.
#[derive(Debug, Clone)]
pub struct SwapchainSupportDetails {
    pub capabilites: SurfaceCapabilities,
    pub formats: Vec<SurfaceFormat>,
    pub present_modes: Vec<i32>,
}

} // verus!
