//! Device-level errors and format support queries.

use vstd::prelude::*;
use crate::device_selection::DeviceSuitability;
use crate::surface::SurfaceError;
use crate::swapchain::SwapchainError;

verus! {

/// Why no usable logical device could be created: the API result code of
/// the creation call, an unsuitable or missing physical device, or a
/// failure while enumerating what the device offers.
#[derive(Debug, Clone, Copy, PartialEq, Eq, Structural)]
pub enum DeviceCreationError {
    Creation(i32),
    UnsuitableDevice(DeviceSuitability),
    MissingPhysicalDevice,
    ExtensionEnumeration(i32),
    PhysicalDeviceEnumeration(i32),
    Surface(SurfaceError),
}

/// Why a device operation failed.
#[derive(Debug, Clone, Copy, PartialEq, Eq, Structural)]
pub enum DeviceError {
    Creation(DeviceCreationError),
    Swapchain(SwapchainError),
    WaitIdle(i32),
}

/// How an image of some format is laid out in memory.
#[derive(Debug, Clone, Copy, PartialEq, Eq, Structural)]
pub enum ImageTiling {
    Linear,
    Optimal,
}

/// What was queried of one candidate format: its code, and whether the
/// features the caller needs are supported under linear and under optimal
/// tiling.
#[derive(Debug, Clone, Copy, PartialEq, Eq, Structural)]
pub struct FormatFeatureSupport {
    pub format: i32,
    pub linear_tiling_supported: bool,
    pub optimal_tiling_supported: bool,
}

/// Whether a queried candidate supports the needed features under the
/// given tiling.
pub open spec fn format_supported(candidate: FormatFeatureSupport, tiling: ImageTiling) -> bool {
    match tiling {
        ImageTiling::Linear => candidate.linear_tiling_supported,
        ImageTiling::Optimal => candidate.optimal_tiling_supported,
    }
}

/// The first of the queried candidate formats that supports the needed
/// features under `tiling`, or `None` when none does.  The caller lists
/// candidates in order of preference.
pub fn find_supported_format(candidates: &Vec<FormatFeatureSupport>, tiling: ImageTiling) -> (r:
    Option<i32>)
    ensures
        match r {
            Some(f) => exists|i: int|
                0 <= i < candidates@.len() && candidates@[i].format == f && format_supported(
                    candidates@[i],
                    tiling,
                ) && forall|j: int| 0 <= j < i ==> !format_supported(candidates@[j], tiling),
            None => forall|i: int|
                0 <= i < candidates@.len() ==> !format_supported(candidates@[i], tiling),
        },
{
    let n = candidates.len();
    for i in 0..n
        invariant
            n == candidates@.len(),
            forall|j: int| 0 <= j < i ==> !format_supported(candidates@[j], tiling),
    {
        let can = candidates[i];
        let supported = match tiling {
            ImageTiling::Linear => can.linear_tiling_supported,
            ImageTiling::Optimal => can.optimal_tiling_supported,
        };
        if supported {
            return Some(can.format);
        }
    }
    None
}

} // verus!
