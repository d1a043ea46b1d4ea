//! Command pool and command buffer errors, and how a buffer is submitted.

use vstd::prelude::*;

verus! {

/// Why a command buffer operation failed, by the API result code returned.
#[derive(Debug, Clone, Copy, PartialEq, Eq, Structural)]
pub enum CommandBufferError {
    Begin(i32),
    End(i32),
}

/// Why a command pool operation failed: the API result code of creating
/// the pool or allocating buffers from it, or an error of an allocated
/// buffer.
#[derive(Debug, Clone, Copy, PartialEq, Eq, Structural)]
pub enum CommandPoolError {
    Creation(i32),
    CommandBufferAlloc(i32),
    CommandBuffer(CommandBufferError),
}

/// A command error of either kind.
#[derive(Debug, Clone, Copy, PartialEq, Eq, Structural)]
pub enum CommandError {
    Pool(CommandPoolError),
    Buffer(CommandBufferError),
}

/// How a recorded command buffer will be used: submitted once and thrown
/// away, or kept and submitted many times.
#[derive(Debug, Clone, Copy, PartialEq, Eq, Structural)]
pub enum CommandBufferSubmission {
    Single,
    Multi,
}

} // verus!
