//! Builders for the allocator-backed storage: an allocator is the raw
//! resource such a storage is built from and unwrapped back to.

use vstd::prelude::*;

use crate::allocator::AllocStorage;
use crate::alternative::Builder;
use crate::layout::Layout;
use crate::traits::Allocator;

verus! {

/// A builder wrapping an allocator, for contexts where the allocator type
/// itself cannot serve as one.
pub struct AllocatorBuilder<A>(pub A);

impl<A: Allocator, V> Builder<V, AllocStorage<A, V>> for AllocatorBuilder<A> {
    /// The fresh storage grants exactly what its allocator grants.
    open spec fn built_can_allocate(&self, layout: Layout) -> bool {
        self.0.grants(layout)
    }

    fn into_storage(self) -> (r: AllocStorage<A, V>) {
        AllocStorage::new(self.0)
    }

    fn from_storage(storage: AllocStorage<A, V>) -> (r: Self) {
        AllocatorBuilder(storage.into_allocator())
    }
}

impl<A: Allocator, V> Builder<V, AllocStorage<A, V>> for A {
    /// The fresh storage grants exactly what this allocator grants.
    open spec fn built_can_allocate(&self, layout: Layout) -> bool {
        self.grants(layout)
    }

    fn into_storage(self) -> (r: AllocStorage<A, V>) {
        AllocStorage::new(self)
    }

    fn from_storage(storage: AllocStorage<A, V>) -> (r: A) {
        storage.into_allocator()
    }
}

} // verus!
