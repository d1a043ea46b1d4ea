//! Index and vertex buffers, as thin wrappers over device buffers.

use vstd::prelude::*;
use crate::mem::DeviceBuffer;
use crate::mem::MemoryError;

verus! {

/// Why creating an index buffer failed.
#[derive(Debug, Clone, Copy, PartialEq, Eq, Structural)]
pub enum IndexBufferError {
    Memory(MemoryError),
    MemoryMapping(i32),
}

/// A device buffer holding indices.
#[derive(Debug, Clone, Copy, PartialEq, Eq, Structural)]
pub struct IndexBuffer(pub DeviceBuffer);

impl IndexBuffer {
    /// An index buffer sized for `data`, filled from it through a staging
    /// buffer.
    pub fn from_data(data: &Vec<u8>) -> (r: IndexBuffer)
        ensures
            r.0.size == data@.len(),
    {
        IndexBuffer(DeviceBuffer::device_local_by_staging(data))
    }
}

/// A device buffer holding vertices.
#[derive(Debug, Clone, Copy, PartialEq, Eq, Structural)]
pub struct VertexBuffer(pub DeviceBuffer);

impl VertexBuffer {
    /// A vertex buffer sized for `data`, filled from it through a staging
    /// buffer.
    pub fn from_data(data: &Vec<u8>) -> (r: VertexBuffer)
        ensures
            r.0.size == data@.len(),
    {
        VertexBuffer(DeviceBuffer::device_local_by_staging(data))
    }
}

} // verus!
