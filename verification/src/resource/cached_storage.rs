//! A storage whose resources are cached under a string key, so that asking
//! twice for the same key yields the same handle instead of a new resource.

use vstd::prelude::*;
use crate::resource::storage::Handle;
use crate::resource::storage::Storage;

verus! {

/// Resources addressed both by handle and by the key (for instance a file
/// path) they were created from.  Creation is split in two steps so the
/// caller can build the resource itself: look the key up with [`cached`],
/// and only when that misses, build the resource and [`add`] it.
///
/// [`cached`]: CachedStorage::cached
/// [`add`]: CachedStorage::add
pub struct CachedStorage<T> {
    keys: Vec<String>,
    storage: Storage<T>,
}

impl<T> CachedStorage<T> {
    /// One key per resource, in creation order.
    pub closed spec fn keys(&self) -> Seq<String> {
        self.keys@
    }

    /// The resources, in creation order.
    pub closed spec fn resources(&self) -> Seq<T> {
        self.storage@
    }

    /// Each resource has its key, and no key is repeated.
    pub open spec fn well_formed(&self) -> bool {
        &&& self.keys().len() == self.resources().len()
        &&& forall|i: int, j: int|
            0 <= i < j < self.keys().len() ==> self.keys()[i]@ != self.keys()[j]@
    }

    /// Whether `key` already names a resource here.
    pub open spec fn contains_key(&self, key: Seq<char>) -> bool {
        exists|i: int| 0 <= i < self.keys().len() && self.keys()[i]@ == key
    }

    /// An empty cache.
    pub fn new() -> (s: CachedStorage<T>)
        ensures
            s.well_formed(),
            s.keys().len() == 0,
    {
        Self { keys: Vec::new(), storage: Storage::new() }
    }

    /// Look `key` up: the handle of the resource created under this key, or
    /// `None` exactly when no resource was.
    pub fn cached(&self, key: &String) -> (r: Option<Handle<T>>)
        ensures
            match r {
                Some(h) => h.id < self.keys().len() && self.keys()[h.id as int]@ == key@,
                None => !self.contains_key(key@),
            },
    {
        let n = self.keys.len();
        for i in 0..n
            invariant
                n == self.keys().len(),
                forall|j: int| 0 <= j < i ==> self.keys()[j]@ != key@,
        {
            if self.keys[i] == *key {
                return Some(Handle::new(i));
            }
        }
        None
    }

    /// Add a resource under a key not seen before, returning its handle.
    pub fn add(&mut self, key: String, item: T) -> (h: Handle<T>)
        requires
            old(self).well_formed(),
            !old(self).contains_key(key@),
        ensures
            final(self).well_formed(),
            final(self).keys() == old(self).keys().push(key),
            final(self).resources() == old(self).resources().push(item),
            h.id == old(self).keys().len(),
    {
        self.keys.push(key);
        self.storage.add(item)
    }

    /// Look a handle up, as [`Storage::get`] does.
    pub fn get(&self, h: &Handle<T>) -> (r: Option<&T>)
        ensures
            h.id < self.resources().len() ==> r == Some(&self.resources()[h.id as int]),
            h.id >= self.resources().len() ==> r is None,
    {
        self.storage.get(h)
    }
}

} // verus!
