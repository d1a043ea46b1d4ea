//! Models of the synchronization primitives the renderer schedules with.
//!
//! The graphics API owns the real semaphores and fences; the library tracks
//! the one piece of their state its decisions depend on — whether a fence
//! was created signaled and when it is reset.

use vstd::prelude::*;

verus! {

/// Why creating a semaphore failed, by the API result code returned.
#[derive(Debug, Clone, Copy, PartialEq, Eq, Structural)]
pub enum SemaphoreError {
    Creation(i32),
}

/// A binary semaphore ordering GPU work against other GPU work.  Its state
/// lives on the GPU timeline, so nothing of it is tracked here.
#[derive(Debug, Clone, Copy, PartialEq, Eq, Structural)]
pub struct Semaphore {
}

impl Semaphore {
    /// A fresh semaphore.
    pub fn new() -> Semaphore {
        Semaphore {  }
    }
}

/// Why a fence operation failed, by the API result code returned.
#[derive(Debug, Clone, Copy, PartialEq, Eq, Structural)]
pub enum FenceError {
    Creation(i32),
    Await(i32),
    Reset(i32),
}

/// A fence gating CPU progress on GPU completion.  The library tracks the
/// state the fence was put in last from the CPU side: signaled at creation,
/// or unsignaled after a reset.
#[derive(Debug, Clone, Copy, PartialEq, Eq, Structural)]
pub struct Fence {
    pub signaled: bool,
}

impl Fence {
    /// A fence created in the signaled state, so the first wait on it
    /// passes at once.
    pub fn signaled() -> (f: Fence)
        ensures
            f.signaled,
    {
        Fence { signaled: true }
    }

    /// A fence created unsignaled.
    pub fn unsignaled() -> (f: Fence)
        ensures
            !f.signaled,
    {
        Fence { signaled: false }
    }

    /// Put the fence back in the unsignaled state before work is submitted
    /// against it.
    pub fn reset(&mut self)
        ensures
            !final(self).signaled,
    {
        self.signaled = false;
    }
}

} // verus!
