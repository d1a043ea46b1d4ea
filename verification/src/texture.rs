//! Textures, cached by the file they were loaded from.

use vstd::prelude::*;
use crate::extent::Extent2D;
use crate::format::Format;
use crate::mem::MemoryError;
use crate::resource::CachedStorage;
use crate::resource::Handle;

verus! {

/// Why creating a texture failed: the image file could not be loaded, the
/// upload failed, or the sampler could not be created.
#[derive(Debug, Clone, PartialEq, Eq)]
pub enum TextureError {
    FileLoading(String),
    Memory(MemoryError),
    Sampler(i32),
}

/// What a texture is created from: the path of its image file.
#[derive(Debug, Clone, PartialEq, Eq)]
pub struct TextureDescriptor {
    pub file_path: String,
}

impl TextureDescriptor {
    pub fn new(file_path: String) -> (r: TextureDescriptor)
        ensures
            r.file_path == file_path,
    {
        TextureDescriptor { file_path }
    }
}

/// A created texture, by the values later decisions read: the image's
/// extent and its format.
#[derive(Debug, Clone, Copy, PartialEq, Eq, Structural)]
pub struct Texture {
    pub extent: Extent2D,
    pub format: Format,
}

/// The renderer's textures, cached by file path: asking again for an
/// already loaded file yields the existing handle.
pub struct Textures {
    storage: CachedStorage<Texture>,
}

impl Textures {
    /// The file paths of the created textures, in creation order.
    pub closed spec fn paths(&self) -> Seq<String> {
        self.storage.keys()
    }

    /// The created textures, in creation order.
    pub closed spec fn textures(&self) -> Seq<Texture> {
        self.storage.resources()
    }

    /// Each texture has its path, and no path is repeated.
    pub open spec fn well_formed(&self) -> bool {
        &&& self.paths().len() == self.textures().len()
        &&& forall|i: int, j: int|
            0 <= i < j < self.paths().len() ==> self.paths()[i]@ != self.paths()[j]@
    }

    /// No textures yet.
    pub fn new() -> (r: Textures)
        ensures
            r.well_formed(),
            r.paths().len() == 0,
    {
        Textures { storage: CachedStorage::new() }
    }

    /// Look a handle up.
    pub fn get(&self, h: &Handle<Texture>) -> (r: Option<&Texture>)
        ensures
            h.id < self.textures().len() ==> r == Some(&self.textures()[h.id as int]),
            h.id >= self.textures().len() ==> r is None,
    {
        self.storage.get(h)
    }

    /// The handle of the texture already created from this descriptor's
    /// file, or `None` exactly when none was.
    pub fn cached(&self, descriptor: &TextureDescriptor) -> (r: Option<Handle<Texture>>)
        ensures
            match r {
                Some(h) => h.id < self.paths().len() && self.paths()[h.id as int]@
                    == descriptor.file_path@,
                None => forall|i: int|
                    0 <= i < self.paths().len() ==> self.paths()[i]@ != descriptor.file_path@,
            },
    {
        self.storage.cached(&descriptor.file_path)
    }

    /// Record a texture created from a file no texture was created from
    /// yet, and hand its handle out.
    pub fn add(&mut self, descriptor: TextureDescriptor, texture: Texture) -> (h: Handle<Texture>)
        requires
            old(self).well_formed(),
            forall|i: int|
                0 <= i < old(self).paths().len() ==> old(self).paths()[i]@
                    != descriptor.file_path@,
        ensures
            final(self).well_formed(),
            final(self).paths() == old(self).paths().push(descriptor.file_path),
            final(self).textures() == old(self).textures().push(texture),
            h.id == old(self).paths().len(),
    {
        self.storage.add(descriptor.file_path, texture)
    }
}

} // verus!
