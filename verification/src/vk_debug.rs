//! Debug-messenger errors.

use vstd::prelude::*;

verus! {

/// Why installing the API's debug messenger failed, by the result code
/// returned.
#[derive(Debug, Clone, Copy, PartialEq, Eq, Structural)]
pub enum DebugUtilsError {
    Creation(i32),
}

} // verus!
