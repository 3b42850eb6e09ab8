//! Fallback composition of two element storages.

use vstd::prelude::*;

use crate::layout::{AllocError, Layout};
use crate::traits::ElementStorage;

verus! {

/// A pair of element storages: requests go to the first, and on failure are
/// retried on the second. The handle remembers which backend produced it, and
/// every later operation dispatches on that tag.
pub struct FallbackElement<F, S> {
    first: F,
    second: S,
}

/// Handle of the fallback element storage: one of the two backends' handles,
/// tagged by the backend that produced it.
#[derive(Clone, Copy, Debug)]
pub enum FallbackElementHandle<F, S> {
    /// First storage handle.
    First(F),
    /// Second storage handle.
    Second(S),
}

impl<F, S> FallbackElement<F, S> {
    /// The preferred backend.
    pub closed spec fn spec_first(&self) -> F {
        self.first
    }

    /// The backend used when the first fails.
    pub closed spec fn spec_second(&self) -> S {
        self.second
    }

    /// Creates an instance.
    pub fn new(first: F, second: S) -> (r: Self)
        ensures
            r.spec_first() == first,
            r.spec_second() == second,
    {
        FallbackElement { first, second }
    }
}

/// A failed request on a fallback of two inline backends leaves the composite
/// exactly as it was: each plain backend's failure relation is equality, and
/// the composite's failure relation is their conjunction.
pub proof fn lemma_failure_leaves_fallback_unchanged<V>(
    pre: FallbackElement<crate::inline::SingleElement<V>, crate::inline::TrackingElement<V>>,
    post: FallbackElement<crate::inline::SingleElement<V>, crate::inline::TrackingElement<V>>,
)
    requires
        ElementStorage::<V>::after_failure(pre, post),
    ensures
        post == pre,
{
}

impl<V, F: ElementStorage<V>, S: ElementStorage<V>> ElementStorage<V> for FallbackElement<F, S> {
    type Handle = FallbackElementHandle<F::Handle, S::Handle>;

    open spec fn wf(&self) -> bool {
        self.spec_first().wf() && self.spec_second().wf()
    }

    open spec fn live(&self, h: FallbackElementHandle<F::Handle, S::Handle>) -> bool {
        match h {
            FallbackElementHandle::First(hf) => self.spec_first().live(hf),
            FallbackElementHandle::Second(hs) => self.spec_second().live(hs),
        }
    }

    open spec fn full(&self, h: FallbackElementHandle<F::Handle, S::Handle>) -> bool {
        match h {
            FallbackElementHandle::First(hf) => self.spec_first().full(hf),
            FallbackElementHandle::Second(hs) => self.spec_second().full(hs),
        }
    }

    open spec fn value_at(&self, h: FallbackElementHandle<F::Handle, S::Handle>) -> V {
        match h {
            FallbackElementHandle::First(hf) => self.spec_first().value_at(hf),
            FallbackElementHandle::Second(hs) => self.spec_second().value_at(hs),
        }
    }

    /// The composite can allocate whenever either backend can.
    open spec fn can_allocate(&self, layout: Layout) -> bool {
        self.spec_first().can_allocate(layout) || self.spec_second().can_allocate(layout)
    }

    /// A failed request leaves each backend as its own failure leaves it; for
    /// plain backends that is exactly as it was.
    open spec fn after_failure(pre: Self, post: Self) -> bool {
        F::after_failure(pre.spec_first(), post.spec_first()) && S::after_failure(
            pre.spec_second(),
            post.spec_second(),
        )
    }

    /// Release happens on the backend the tag names and leaves the other
    /// exactly as it was.
    open spec fn after_release(
        pre: Self,
        post: Self,
        h: FallbackElementHandle<F::Handle, S::Handle>,
    ) -> bool {
        match h {
            FallbackElementHandle::First(hf) => F::after_release(
                pre.spec_first(),
                post.spec_first(),
                hf,
            ) && post.spec_second() == pre.spec_second(),
            FallbackElementHandle::Second(hs) => S::after_release(
                pre.spec_second(),
                post.spec_second(),
                hs,
            ) && post.spec_first() == pre.spec_first(),
        }
    }

    fn allocate(&mut self, meta: usize, layout: Layout) -> (r: Result<
        FallbackElementHandle<F::Handle, S::Handle>,
        AllocError,
    >)
        ensures
            r matches Ok(h) ==> (old(self).spec_first().can_allocate(layout) <==> h is First),
    {
        match self.first.allocate(meta, layout) {
            Ok(hf) => Ok(FallbackElementHandle::First(hf)),
            Err(e) => match self.second.allocate(meta, layout) {
                Ok(hs) => Ok(FallbackElementHandle::Second(hs)),
                Err(e) => Err(e),
            },
        }
    }

    fn create(&mut self, value: V, layout: Layout) -> (r: Result<
        FallbackElementHandle<F::Handle, S::Handle>,
        V,
    >)
        ensures
            r matches Ok(h) ==> (old(self).spec_first().can_allocate(layout) <==> h is First),
    {
        match self.first.create(value, layout) {
            Ok(hf) => Ok(FallbackElementHandle::First(hf)),
            Err(value) => match self.second.create(value, layout) {
                Ok(hs) => Ok(FallbackElementHandle::Second(hs)),
                Err(value) => Err(value),
            },
        }
    }

    fn get(&self, h: FallbackElementHandle<F::Handle, S::Handle>) -> (r: &V) {
        match h {
            FallbackElementHandle::First(hf) => self.first.get(hf),
            FallbackElementHandle::Second(hs) => self.second.get(hs),
        }
    }

    fn replace(&mut self, h: FallbackElementHandle<F::Handle, S::Handle>, value: V) -> (r: V)
        ensures
            h is First ==> final(self).spec_second() == old(self).spec_second(),
            h is Second ==> final(self).spec_first() == old(self).spec_first(),
    {
        match h {
            FallbackElementHandle::First(hf) => self.first.replace(hf, value),
            FallbackElementHandle::Second(hs) => self.second.replace(hs, value),
        }
    }

    fn take(&mut self, h: FallbackElementHandle<F::Handle, S::Handle>) -> (r: V)
        ensures
            h is First ==> final(self).spec_second() == old(self).spec_second(),
            h is Second ==> final(self).spec_first() == old(self).spec_first(),
    {
        match h {
            FallbackElementHandle::First(hf) => self.first.take(hf),
            FallbackElementHandle::Second(hs) => self.second.take(hs),
        }
    }

    fn coerce(&self, h: FallbackElementHandle<F::Handle, S::Handle>, meta: usize) -> (r:
        FallbackElementHandle<F::Handle, S::Handle>)
        ensures
            r is First <==> h is First,
    {
        match h {
            FallbackElementHandle::First(hf) => FallbackElementHandle::First(
                self.first.coerce(hf, meta),
            ),
            FallbackElementHandle::Second(hs) => FallbackElementHandle::Second(
                self.second.coerce(hs, meta),
            ),
        }
    }

    fn deallocate(&mut self, h: FallbackElementHandle<F::Handle, S::Handle>)
        ensures
            h is First ==> final(self).spec_second() == old(self).spec_second(),
            h is Second ==> final(self).spec_first() == old(self).spec_first(),
    {
        match h {
            FallbackElementHandle::First(hf) => self.first.deallocate(hf),
            FallbackElementHandle::Second(hs) => self.second.deallocate(hs),
        }
    }
}

} // verus!
