//! Image view errors.

use vstd::prelude::*;

verus! {

/// Why creating an image view failed, by the API result code returned.
#[derive(Debug, Clone, Copy, PartialEq, Eq, Structural)]
pub enum ImageViewError {
    Creation(i32),
}

} // verus!
