//! Descriptor sets, double-buffered per frame in flight.
//!
//! A descriptor set binds a frame's uniform buffer copy to the shaders.
//! Since each frame in flight has its own buffer copy, each has its own
//! descriptor set too: the sets live in parallel storages addressed by one
//! handle, one storage per frame slot.

use vstd::prelude::*;
use crate::resource::Handle;
use crate::resource::Storage;
use crate::MAX_FRAMES_IN_FLIGHT;

verus! {

/// Why allocating descriptor sets failed, by the API result code returned.
#[derive(Debug, Clone, Copy, PartialEq, Eq, Structural)]
pub enum DescriptorSetError {
    Allocation(i32),
}

/// One allocated descriptor set, by the handle the API issued for it.
#[derive(Debug, Clone, Copy, PartialEq, Eq, Structural)]
pub struct DescriptorSet {
    pub vk_descriptor_set: u64,
}

/// The renderer's descriptor sets: one storage per frame in flight, grown
/// in step so a handle is valid in both or in neither.
pub struct DescriptorSets {
    storage_first: Storage<DescriptorSet>,
    storage_second: Storage<DescriptorSet>,
}

impl DescriptorSets {
    /// The sets used by the first frame slot.
    pub closed spec fn first(&self) -> Seq<DescriptorSet> {
        self.storage_first@
    }

    /// The sets used by the second frame slot.
    pub closed spec fn second(&self) -> Seq<DescriptorSet> {
        self.storage_second@
    }

    /// Both storages hold a set per issued handle.
    pub open spec fn well_formed(&self) -> bool {
        self.first().len() == self.second().len()
    }

    /// Empty storages for both frame slots.
    pub fn new() -> (r: DescriptorSets)
        ensures
            r.well_formed(),
            r.first().len() == 0,
    {
        DescriptorSets { storage_first: Storage::new(), storage_second: Storage::new() }
    }

    /// Record one allocated set per frame slot under a single handle: the
    /// handle under which both can be found again.
    pub fn create(&mut self, set_first: DescriptorSet, set_second: DescriptorSet) -> (h: Handle<
        DescriptorSet,
    >)
        requires
            old(self).well_formed(),
        ensures
            final(self).well_formed(),
            final(self).first() == old(self).first().push(set_first),
            final(self).second() == old(self).second().push(set_second),
            h.id == old(self).first().len(),
    {
        let handle = self.storage_first.add(set_first);
        let _ = self.storage_second.add(set_second);
        handle
    }

    /// The set frame slot `frame_idx` binds for this handle, or `None`
    /// when the handle was never issued.
    pub fn get(&self, h: &Handle<DescriptorSet>, frame_idx: usize) -> (r: Option<&DescriptorSet>)
        requires
            frame_idx < MAX_FRAMES_IN_FLIGHT,
        ensures
            frame_idx == 0 && h.id < self.first().len() ==> r == Some(&self.first()[h.id as int]),
            frame_idx == 1 && h.id < self.second().len() ==> r == Some(&self.second()[h.id as int]),
            frame_idx == 0 && h.id >= self.first().len() ==> r is None,
            frame_idx == 1 && h.id >= self.second().len() ==> r is None,
    {
        if frame_idx == 0 {
            self.storage_first.get(h)
        } else {
            self.storage_second.get(h)
        }
    }
}

} // verus!
