//! Render pass errors.

use vstd::prelude::*;

verus! {

/// Why creating a render pass failed, by the API result code returned.
#[derive(Debug, Clone, Copy, PartialEq, Eq, Structural)]
pub enum RenderPassError {
    Creation(i32),
}

} // verus!
