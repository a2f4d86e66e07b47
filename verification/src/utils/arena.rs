//! A simple arena allocator.
//!
//! Trees with parent-child index links are stored as an append-only vector:
//! an item, once added, keeps its index for the arena's whole lifetime,
//! because nothing is ever removed or reordered. The contracts below state
//! exactly that: `add` appends and returns the index of the new item, and no
//! operation disturbs the items already stored.

use vstd::prelude::*;

verus! {

/// Index type for the [`Arena`].
///
/// Only needed in case the indexing scheme ever changes.
pub type ArenaIndex = usize;

/// An append-only arena: a vector whose indices are stable handles.
#[derive(Debug)]
pub struct Arena<T> {
    /// The backing store for this allocator.
    store: Vec<T>,
}

impl<T> View for Arena<T> {
    type V = Seq<T>;

    closed spec fn view(&self) -> Seq<T> {
        self.store@
    }
}

impl<T> Arena<T> {
    /// Creates a new, empty arena.
    pub fn new() -> (arena: Self)
        ensures
            arena@ =~= Seq::<T>::empty(),
    {
        Arena { store: Vec::new() }
    }

    /// Creates a new, empty arena with space reserved for `capacity` items.
    pub fn with_capacity(capacity: usize) -> (arena: Self)
        ensures
            arena@ =~= Seq::<T>::empty(),
    {
        Arena { store: Vec::with_capacity(capacity) }
    }

    /// Adds the item to the arena.
    ///
    /// Returns the index of the inserted item; every item already stored
    /// keeps its place, so the returned index stays valid for good.
    pub fn add(&mut self, item: T) -> (index: ArenaIndex)
        ensures
            final(self)@ == old(self)@.push(item),
            index == old(self)@.len(),
    {
        let index = self.store.len();
        self.store.push(item);
        index
    }

    /// Returns a reference to the item at the provided index, or `None` if
    /// the index is out of bounds.
    pub fn get(&self, index: ArenaIndex) -> (item: Option<&T>)
        ensures
            match item {
                Some(item) => index < self@.len() && *item == self@[index as int],
                None => index >= self@.len(),
            },
    {
        if index < self.store.len() {
            Some(&self.store[index])
        } else {
            None
        }
    }

    /// Returns a reference to the item at the provided index, which must be
    /// in bounds.
    pub fn index(&self, index: ArenaIndex) -> (item: &T)
        requires
            index < self@.len(),
        ensures
            *item == self@[index as int],
    {
        &self.store[index]
    }

    /// Replaces the item at the provided index, which must be in bounds.
    ///
    /// The arena stays append-only in shape: indices never move; only the
    /// payload at this one index changes.
    pub fn set(&mut self, index: ArenaIndex, item: T)
        requires
            index < old(self)@.len(),
        ensures
            final(self)@ == old(self)@.update(index as int, item),
    {
        self.store[index] = item;
    }

    /// Shrinks the arena's backing store as close as possible to the
    /// contained items. The items themselves are untouched.
    pub fn shrink_to_fit(&mut self)
        ensures
            final(self)@ == old(self)@,
    {
        vec_shrink_to_fit(&mut self.store);
    }

    /// Returns the number of items in the arena.
    pub fn len(&self) -> (length: usize)
        ensures
            length == self@.len(),
    {
        self.store.len()
    }
}

/// Relies on `Vec::shrink_to_fit`: it only drops excess capacity and leaves
/// the stored elements unchanged.
#[verifier::external_body]
fn vec_shrink_to_fit<T>(v: &mut Vec<T>)
    ensures
        final(v)@ == old(v)@,
{
    v.shrink_to_fit()
}

} // verus!
