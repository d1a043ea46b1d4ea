//! Framebuffer errors.

use vstd::prelude::*;

verus! {

/// Why creating a framebuffer failed, by the API result code returned.
#[derive(Debug, Clone, Copy, PartialEq, Eq, Structural)]
pub enum FramebufferError {
    Creation(i32),
}

} // verus!
