//! Typed handles and the storages that issue them.
//!
//! GPU resources are kept in per-kind storages and referred to by opaque
//! handles, so call sites never hold direct references to resource objects
//! across frames.  A handle is an index into the storage that issued it and
//! is valid exactly when that slot exists.

use vstd::prelude::*;

pub mod cached_storage;
pub mod storage;

pub use cached_storage::CachedStorage;
pub use storage::Handle;
pub use storage::Storage;

verus! {

/// Something that owns resources of one kind: it can create a resource from
/// a descriptor, handing back a handle, and later look the resource up again.
pub trait ResourceManager<Descriptor, Resource, Error> {
    fn get_resource(&self, handle: &Handle<Resource>) -> Option<&Resource>;

    fn create_resource(&mut self, descriptor: Descriptor) -> Result<Handle<Resource>, Error>;
}

} // verus!
