//! An array-backed storage of resources, addressed by typed handles.

use vstd::prelude::*;
use core::marker::PhantomData;

verus! {

/// An opaque reference to a resource of type `T` held in a [`Storage<T>`].
///
/// A handle is only meaningful for the storage that issued it: it names the
/// slot the resource was added at.
pub struct Handle<T> {
    pub id: usize,
    pub resource: PhantomData<T>,
}

impl<T> Handle<T> {
    /// The handle for slot `id`.
    pub fn new(id: usize) -> (h: Handle<T>)
        ensures
            h.id == id,
    {
        Self { id, resource: PhantomData }
    }
}

impl<T> Clone for Handle<T> {
    fn clone(&self) -> (r: Self)
        ensures
            r.id == self.id,
    {
        Self { id: self.id, resource: PhantomData }
    }
}

impl<T> Copy for Handle<T> {

}

/// An append-only array of resources.  Adding a resource issues the handle
/// of the slot it went into; a handle resolves to a resource exactly when
/// its slot exists in this storage.
pub struct Storage<T> {
    items: Vec<T>,
}

impl<T> View for Storage<T> {
    type V = Seq<T>;

    closed spec fn view(&self) -> Seq<T> {
        self.items@
    }
}

impl<T> Storage<T> {
    /// An empty storage that has issued no handles.
    pub fn new() -> (s: Storage<T>)
        ensures
            s@.len() == 0,
    {
        Self { items: Vec::new() }
    }

    /// Number of resources held.
    pub fn len(&self) -> (n: usize)
        ensures
            n == self@.len(),
    {
        self.items.len()
    }

    /// Add a resource, returning the handle under which it can be found.
    pub fn add(&mut self, item: T) -> (h: Handle<T>)
        ensures
            final(self)@ == old(self)@.push(item),
            h.id == old(self)@.len(),
    {
        let id = self.items.len();
        self.items.push(item);
        Handle::new(id)
    }

    /// Look a handle up.  Returns the resource in the handle's slot, or
    /// `None` exactly when this storage never issued the handle.
    pub fn get(&self, h: &Handle<T>) -> (r: Option<&T>)
        ensures
            h.id < self@.len() ==> r == Some(&self@[h.id as int]),
            h.id >= self@.len() ==> r is None,
    {
        if h.id < self.items.len() {
            Some(&self.items[h.id])
        } else {
            None
        }
    }

    /// Replace the resource in the handle's slot, returning the previous
    /// one, or `None` (leaving the storage unchanged) when the handle was
    /// never issued by this storage.
    pub fn replace(&mut self, h: &Handle<T>, item: T) -> (r: Option<T>)
        ensures
            h.id < old(self)@.len() ==> final(self)@ == old(self)@.update(h.id as int, item) && r
                == Some(old(self)@[h.id as int]),
            h.id >= old(self)@.len() ==> final(self)@ == old(self)@ && r is None,
    {
        if h.id < self.items.len() {
            let previous = self.items.swap_remove(h.id);
            let last = self.items.len();
            self.items.push(item);
            if h.id < last {
                let moved = self.items.swap_remove(h.id);
                self.items.push(moved);
            }
            proof {
                assert(self.items@ =~= old(self).items@.update(h.id as int, item));
            }
            Some(previous)
        } else {
            None
        }
    }
}

} // verus!
