//! Image formats, split into component layout and color space.

use vstd::prelude::*;

verus! {

/// How a pixel's channels are laid out in memory: first channel at the
/// lowest address.
#[derive(Debug, Clone, Copy, PartialEq, Eq, Structural)]
pub enum ComponentLayout {
    R8G8B8A8,
}

/// How channel values are to be interpreted.
#[derive(Debug, Clone, Copy, PartialEq, Eq, Structural)]
pub enum ColorSpace {
    Linear,
    Srgb,
}

/// An image format: a component layout and a color space.
#[derive(Debug, Clone, Copy, PartialEq, Eq, Structural)]
pub struct Format {
    pub component_layout: ComponentLayout,
    pub color_space: ColorSpace,
}

/// Format code of `R8G8B8A8_SRGB`, as the graphics API numbers it.
pub const FORMAT_R8G8B8A8_SRGB: i32 = 43;

/// The API format code a format maps to, for the combinations the
/// renderer uses.
pub open spec fn format_code_spec(f: Format) -> Option<i32> {
    match (f.component_layout, f.color_space) {
        (ComponentLayout::R8G8B8A8, ColorSpace::Srgb) => Some(FORMAT_R8G8B8A8_SRGB),
        _ => None,
    }
}

/// The format an API format code maps back to, for the codes the renderer
/// uses.
pub open spec fn format_from_code_spec(code: i32) -> Option<Format> {
    if code == FORMAT_R8G8B8A8_SRGB {
        Some(Format { component_layout: ComponentLayout::R8G8B8A8, color_space: ColorSpace::Srgb })
    } else {
        None
    }
}

impl Format {
    /// The API format code of this format, or `None` for a combination
    /// the renderer does not use.
    pub fn vk_format_code(&self) -> (r: Option<i32>)
        ensures
            r == format_code_spec(*self),
    {
        match (self.component_layout, self.color_space) {
            (ComponentLayout::R8G8B8A8, ColorSpace::Srgb) => Some(FORMAT_R8G8B8A8_SRGB),
            _ => None,
        }
    }

    /// The format an API format code stands for, or `None` for a code the
    /// renderer does not use.
    pub fn from_vk_format_code(code: i32) -> (r: Option<Format>)
        ensures
            r == format_from_code_spec(code),
    {
        if code == FORMAT_R8G8B8A8_SRGB {
            Some(
                Format {
                    component_layout: ComponentLayout::R8G8B8A8,
                    color_space: ColorSpace::Srgb,
                },
            )
        } else {
            None
        }
    }
}

/// Mapping a format to its code and back returns the format: the two maps
/// invert each other on what they cover.
pub proof fn lemma_format_code_round_trip(f: Format, code: i32)
    ensures
        format_code_spec(f) matches Some(c) ==> format_from_code_spec(c) == Some(f),
        format_from_code_spec(code) matches Some(g) ==> format_code_spec(g) == Some(code),
{
}

} // verus!
