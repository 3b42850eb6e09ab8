//! Mutually-exclusive composition: exactly one of two element backends exists
//! at a time, and the first failure of the first backend switches to the
//! second, once and for all.

use vstd::prelude::*;

use crate::layout::Layout;
use crate::traits::ElementStorage;

mod single_element;

pub use single_element::{SingleElement, SingleElementHandle};

verus! {

/// A pair of conversions between a backend and the raw resource it was built
/// from, letting the alternative composite materialize a fresh instance of
/// the other backend type without knowing its construction details.
pub trait Builder<V, T: ElementStorage<V>>: Sized {
    /// Whether the storage this builder would yield could allocate the shape.
    spec fn built_can_allocate(&self, layout: Layout) -> bool;

    /// Builds a fresh storage from the raw resource this builder holds.
    fn into_storage(self) -> (r: T)
        ensures
            r.wf(),
            forall|l: Layout| #[trigger] r.can_allocate(l) == self.built_can_allocate(l),
    ;

    /// Unwraps a storage back to the raw resource it was built from; the
    /// resource rebuilds a backend that can allocate exactly what this one
    /// can now.
    fn from_storage(storage: T) -> (r: Self)
        ensures
            forall|l: Layout| #[trigger] r.built_can_allocate(l) == storage.can_allocate(l),
    ;
}

/// The state of the alternative composite: the first backend together with
/// the builder that can produce the second, or the second backend together
/// with the builder its first was unwrapped to, or the transient guard set
/// for the duration of the one-shot transition between them. Poisoned is
/// never observed by a caller: every operation commits First or Second before
/// returning.
pub(crate) enum Inner<F, S, FB, SB> {
    First(F, SB),
    Second(S, FB),
    Poisoned,
}

} // verus!
