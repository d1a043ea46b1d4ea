//! Small numeric helpers shared across the library.

use vstd::prelude::*;

verus! {

/// Clamp `v` into the inclusive range `[min, max]`.
///
/// Mirrors `max(min, min(v, max))`, so when the range is empty
/// (`min > max`) the lower bound wins.
pub fn clamp(v: u32, min: u32, max: u32) -> (r: u32)
    ensures
        r == clamp_spec(v, min, max),
{
    let low = if v < max {
        v
    } else {
        max
    };
    if min > low {
        min
    } else {
        low
    }
}

/// What `clamp` returns: the lower bound takes precedence over the upper one.
pub open spec fn clamp_spec(v: u32, min: u32, max: u32) -> u32 {
    let low = if v < max {
        v
    } else {
        max
    };
    if min > low {
        min
    } else {
        low
    }
}

} // verus!
