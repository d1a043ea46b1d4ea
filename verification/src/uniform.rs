//! Uniform buffers, double-buffered per frame in flight.
//!
//! A uniform buffer holds `n_elems` elements of `elem_size` bytes.  Since
//! one frame's copy may still be read by the GPU while the next frame
//! updates its own, every uniform buffer exists once per frame in flight,
//! in parallel storages addressed by one handle.

use vstd::prelude::*;
use crate::mem::DeviceBuffer;
use crate::mem::MemoryError;
use crate::resource::Handle;
use crate::resource::Storage;
use crate::MAX_FRAMES_IN_FLIGHT;

verus! {

/// What a uniform buffer is created from: element bytes to upload, or
/// just the sizes for an uninitialized buffer.
#[derive(Debug, Clone, PartialEq, Eq)]
pub enum UniformBufferDescriptor {
    Initialized { data: Vec<u8>, elem_size: usize },
    Uninitialized { elem_size: usize, n_elems: usize },
}

impl UniformBufferDescriptor {
    /// Describe a buffer initialized from `data`, read as elements of
    /// `elem_size` bytes.
    pub fn from_slice(data: Vec<u8>, elem_size: usize) -> (r: UniformBufferDescriptor)
        ensures
            r == (UniformBufferDescriptor::Initialized { data, elem_size }),
    {
        UniformBufferDescriptor::Initialized { data, elem_size }
    }

    /// Describe an uninitialized buffer of `n_elems` elements of
    /// `elem_size` bytes.
    pub fn uninitialized(elem_size: usize, n_elems: usize) -> (r: UniformBufferDescriptor)
        ensures
            r == (UniformBufferDescriptor::Uninitialized { elem_size, n_elems }),
    {
        UniformBufferDescriptor::Uninitialized { elem_size, n_elems }
    }
}

/// Whether a descriptor can be created from without overflow or division
/// by zero: initialized data needs a nonzero element size, and an
/// uninitialized buffer's total size must be addressable.
pub open spec fn descriptor_valid(d: UniformBufferDescriptor) -> bool {
    match d {
        UniformBufferDescriptor::Initialized { data, elem_size } => elem_size > 0,
        UniformBufferDescriptor::Uninitialized { elem_size, n_elems } => elem_size * n_elems
            <= usize::MAX,
    }
}

/// One frame's copy of a uniform buffer: the device buffer and the
/// element count and size it was created with.
#[derive(Debug, Clone, Copy, PartialEq, Eq, Structural)]
pub struct UniformBuffer {
    pub buffer: DeviceBuffer,
    pub elem_size: usize,
    pub n_elems: usize,
}

impl UniformBuffer {
    /// The whole buffer size can be computed without overflow.
    pub open spec fn well_formed(&self) -> bool {
        self.elem_size * self.n_elems <= usize::MAX
    }

    /// Create one copy from a descriptor: initialized data is uploaded
    /// through a staging buffer and its element count derived, an
    /// uninitialized buffer is allocated at its total size.
    pub fn create(descriptor: &UniformBufferDescriptor) -> (r: Result<UniformBuffer, MemoryError>)
        requires
            descriptor_valid(*descriptor),
        ensures
            r matches Ok(u) && u.well_formed(),
            descriptor matches UniformBufferDescriptor::Initialized { data, elem_size } ==> (r
                matches Ok(u) && u.buffer.size == data@.len() && u.elem_size == *elem_size
                && u.n_elems == data@.len() as int / (*elem_size as int)),
            descriptor matches UniformBufferDescriptor::Uninitialized { elem_size, n_elems } ==> (r
                matches Ok(u) && u.buffer.size == (*elem_size) * (*n_elems) && u.elem_size
                == *elem_size && u.n_elems == *n_elems),
    {
        match descriptor {
            UniformBufferDescriptor::Initialized { data, elem_size } => {
                let buffer = DeviceBuffer::device_local_by_staging(data);
                let n_elems = data.len() / *elem_size;
                proof {
                    vstd::arithmetic::div_mod::lemma_fundamental_div_mod(
                        data@.len() as int,
                        *elem_size as int,
                    );
                    vstd::arithmetic::div_mod::lemma_mod_bound(
                        data@.len() as int,
                        *elem_size as int,
                    );
                }
                Ok(UniformBuffer { buffer, elem_size: *elem_size, n_elems })
            },
            UniformBufferDescriptor::Uninitialized { elem_size, n_elems } => {
                let buffer = DeviceBuffer::empty(*elem_size * *n_elems);
                Ok(UniformBuffer { buffer, elem_size: *elem_size, n_elems: *n_elems })
            },
        }
    }

    /// Check that an update of `data` bytes fits the buffer; the buffer's
    /// bookkeeping does not change.
    pub fn update_with(&mut self, data: &Vec<u8>)
        requires
            data@.len() <= old(self).buffer.size,
        ensures
            *final(self) == *old(self),
    {
        self.buffer.update_data_at(data, 0);
    }

    /// Size of one element in bytes.
    pub fn elem_size(&self) -> (r: usize)
        ensures
            r == self.elem_size,
    {
        self.elem_size
    }

    /// Number of elements.
    pub fn n_elems(&self) -> (r: usize)
        ensures
            r == self.n_elems,
    {
        self.n_elems
    }

    /// Total size in bytes.
    pub fn size(&self) -> (r: usize)
        requires
            self.well_formed(),
        ensures
            r == self.elem_size * self.n_elems,
    {
        proof {
            vstd::arithmetic::mul::lemma_mul_is_commutative(
                self.n_elems as int,
                self.elem_size as int,
            );
        }
        self.n_elems * self.elem_size
    }
}

/// The uniform buffers of the renderer: one storage per frame in flight,
/// grown in step so a handle is valid in both or in neither.
pub struct UniformBuffers {
    storage_first: Storage<UniformBuffer>,
    storage_second: Storage<UniformBuffer>,
}

impl UniformBuffers {
    /// The copies used by the first frame slot.
    pub closed spec fn first(&self) -> Seq<UniformBuffer> {
        self.storage_first@
    }

    /// The copies used by the second frame slot.
    pub closed spec fn second(&self) -> Seq<UniformBuffer> {
        self.storage_second@
    }

    /// Both storages hold a copy per issued handle.
    pub open spec fn well_formed(&self) -> bool {
        self.first().len() == self.second().len()
    }

    /// Empty storages for both frame slots.
    pub fn new() -> (r: UniformBuffers)
        ensures
            r.well_formed(),
            r.first().len() == 0,
    {
        UniformBuffers { storage_first: Storage::new(), storage_second: Storage::new() }
    }

    /// Create a uniform buffer: one copy per frame slot, both from the
    /// same descriptor, under one handle.
    pub fn create(&mut self, descriptor: &UniformBufferDescriptor) -> (r: Result<
        Handle<UniformBuffer>,
        MemoryError,
    >)
        requires
            old(self).well_formed(),
            descriptor_valid(*descriptor),
        ensures
            final(self).well_formed(),
            r matches Ok(h) && h.id == old(self).first().len(),
            final(self).first().len() == old(self).first().len() + 1,
            final(self).first()[old(self).first().len() as int].well_formed(),
            final(self).first() =~= old(self).first().push(
                final(self).first().last(),
            ),
            final(self).second() =~= old(self).second().push(final(self).second().last()),
            final(self).first().last() == final(self).second().last(),
    {
        let u_buffer0 = match UniformBuffer::create(descriptor) {
            Ok(u) => u,
            Err(e) => {
                return Err(e);
            },
        };
        let u_buffer1 = u_buffer0;
        let _ = self.storage_first.add(u_buffer0);
        Ok(self.storage_second.add(u_buffer1))
    }

    /// The copy of a uniform buffer used by frame slot `frame_idx`, or
    /// `None` when the handle was never issued.
    pub fn get(&self, h: &Handle<UniformBuffer>, frame_idx: usize) -> (r: Option<&UniformBuffer>)
        requires
            frame_idx < MAX_FRAMES_IN_FLIGHT,
        ensures
            frame_idx == 0 && h.id < self.first().len() ==> r == Some(&self.first()[h.id as int]),
            frame_idx == 1 && h.id < self.second().len() ==> r == Some(&self.second()[h.id as int]),
            frame_idx == 0 && h.id >= self.first().len() ==> r is None,
            frame_idx == 1 && h.id >= self.second().len() ==> r is None,
    {
        if frame_idx == 0 {
            self.storage_first.get(h)
        } else {
            self.storage_second.get(h)
        }
    }

    /// Both frame slots' copies of a uniform buffer, or `None` when the
    /// handle was never issued.
    pub fn get_all(&self, h: &Handle<UniformBuffer>) -> (r: Option<
        (&UniformBuffer, &UniformBuffer),
    >)
        requires
            self.well_formed(),
        ensures
            h.id < self.first().len() ==> r == Some(
                (&self.first()[h.id as int], &self.second()[h.id as int]),
            ),
            h.id >= self.first().len() ==> r is None,
    {
        let buf0 = match self.storage_first.get(h) {
            Some(b) => b,
            None => {
                return None;
            },
        };
        let buf1 = match self.storage_second.get(h) {
            Some(b) => b,
            None => {
                return None;
            },
        };
        Some((buf0, buf1))
    }
}

} // verus!
