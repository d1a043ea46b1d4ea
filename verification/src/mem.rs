//! Device memory bookkeeping: buffer sizes and the mip chain an image's
//! smaller levels are blitted through.

use vstd::prelude::*;
use crate::command::CommandBufferError;
use crate::command::CommandPoolError;
use crate::extent::Extent2D;
use crate::queue::QueueError;

verus! {

/// Why a memory operation failed: an allocator result code, or an error of
/// the copy submission run to fill the memory.
#[derive(Debug, Clone, Copy, PartialEq, Eq, Structural)]
pub enum MemoryError {
    BufferCreation(i32),
    ImageCreation(i32),
    CopyCommandPool(CommandPoolError),
    CopyCommandBuffer(CommandBufferError),
    CopySubmit(QueueError),
    MemoryMapping(i32),
}

/// A buffer of device memory, tracked by the one value later decisions
/// read: its size in bytes.
#[derive(Debug, Clone, Copy, PartialEq, Eq, Structural)]
pub struct DeviceBuffer {
    pub size: usize,
}

impl DeviceBuffer {
    /// A freshly allocated buffer of `size` bytes.
    pub fn empty(size: usize) -> (r: DeviceBuffer)
        ensures
            r.size == size,
    {
        DeviceBuffer { size }
    }

    /// A staging buffer sized for `data`, holding a copy of it.
    pub fn staging_with_data(data: &Vec<u8>) -> (r: DeviceBuffer)
        ensures
            r.size == data@.len(),
    {
        DeviceBuffer { size: data.len() }
    }

    /// A device-local buffer filled from `data` through a staging buffer:
    /// its size is the data's.
    pub fn device_local_by_staging(data: &Vec<u8>) -> (r: DeviceBuffer)
        ensures
            r.size == data@.len(),
    {
        let staging = Self::staging_with_data(data);
        Self::empty(staging.size)
    }

    /// Check that writing `data` at byte `offset` stays inside the buffer;
    /// the write itself does not change the size.
    pub fn update_data_at(&mut self, data: &Vec<u8>, offset: usize)
        requires
            offset + data@.len() <= old(self).size,
        ensures
            *final(self) == *old(self),
    {
    }

    /// Size of the buffer in bytes.
    pub fn size(&self) -> (r: usize)
        ensures
            r == self.size,
    {
        self.size
    }
}

/// Halving a dimension along the mip chain: floors at one pixel.
pub open spec fn half_dim(d: u32) -> u32 {
    if d > 1 {
        (d / 2) as u32
    } else {
        d
    }
}

/// The extent of mip level `level` of an image whose full extent is `e`:
/// both dimensions halve with each level, never below one pixel.
pub open spec fn mip_extent(e: Extent2D, level: nat) -> Extent2D
    decreases level,
{
    if level == 0 {
        e
    } else {
        let p = mip_extent(e, (level - 1) as nat);
        Extent2D { width: half_dim(p.width), height: half_dim(p.height) }
    }
}

/// One blit of the mip chain: which level is read, which is written, and
/// the extent of each.
#[derive(Debug, Clone, Copy, PartialEq, Eq, Structural)]
pub struct MipLevelBlit {
    pub src_level: u32,
    pub dst_level: u32,
    pub src_extent: Extent2D,
    pub dst_extent: Extent2D,
}

/// The blits that generate an image's mip levels: level `i` is blitted
/// from level `i - 1`, at the halved extents [`mip_extent`] gives.
pub fn mip_blit_chain(extent: Extent2D, mip_levels: u32) -> (r: Vec<MipLevelBlit>)
    requires
        mip_levels >= 1,
        extent.width >= 1,
        extent.height >= 1,
    ensures
        r@.len() == mip_levels - 1,
        forall|i: int|
            0 <= i < r@.len() ==> r@[i] == (MipLevelBlit {
                src_level: i as u32,
                dst_level: (i + 1) as u32,
                src_extent: mip_extent(extent, i as nat),
                dst_extent: mip_extent(extent, (i + 1) as nat),
            }),
{
    let mut blits: Vec<MipLevelBlit> = Vec::new();
    let mut mip_width = extent.width;
    let mut mip_height = extent.height;

    for i in 1..mip_levels
        invariant
            blits@.len() == i - 1,
            mip_width >= 1,
            mip_height >= 1,
            (Extent2D { width: mip_width, height: mip_height }) == mip_extent(
                extent,
                (i - 1) as nat,
            ),
            forall|k: int|
                0 <= k < blits@.len() ==> blits@[k] == (MipLevelBlit {
                    src_level: k as u32,
                    dst_level: (k + 1) as u32,
                    src_extent: mip_extent(extent, k as nat),
                    dst_extent: mip_extent(extent, (k + 1) as nat),
                }),
    {
        let dst_width = if mip_width > 1 {
            mip_width / 2
        } else {
            1
        };
        let dst_height = if mip_height > 1 {
            mip_height / 2
        } else {
            1
        };

        blits.push(
            MipLevelBlit {
                src_level: i - 1,
                dst_level: i,
                src_extent: Extent2D { width: mip_width, height: mip_height },
                dst_extent: Extent2D { width: dst_width, height: dst_height },
            },
        );

        mip_width = if mip_width > 1 {
            mip_width / 2
        } else {
            mip_width
        };
        mip_height = if mip_height > 1 {
            mip_height / 2
        } else {
            mip_height
        };
    }
    blits
}

} // verus!
