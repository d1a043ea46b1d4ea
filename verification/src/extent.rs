//! Two- and three-dimensional extents, as the graphics API measures images.

use vstd::prelude::*;

verus! {

/// Width and height of a two-dimensional image or window area, in pixels.
#[derive(Debug, Copy, Clone, PartialEq, Eq, Structural)]
pub struct Extent2D {
    pub width: u32,
    pub height: u32,
}

/// Width, height and depth of a three-dimensional image, in pixels.
#[derive(Debug, Copy, Clone, PartialEq, Eq, Structural)]
pub struct Extent3D {
    pub width: u32,
    pub height: u32,
    pub depth: u32,
}

impl Extent3D {
    /// Extend a two-dimensional extent with an explicit depth.
    pub fn from_2d(extent: Extent2D, depth: u32) -> (r: Extent3D)
        ensures
            r.width == extent.width,
            r.height == extent.height,
            r.depth == depth,
    {
        Self { width: extent.width, height: extent.height, depth }
    }
}

} // verus!
