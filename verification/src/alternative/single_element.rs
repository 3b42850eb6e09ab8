//! The mutually-exclusive element storage.

use vstd::prelude::*;

use core::mem;

use crate::alternative::{Builder, Inner};
use crate::layout::{AllocError, Layout};
use crate::traits::ElementStorage;

verus! {

/// Element storage holding exactly one of two backends. While the first is in
/// place, requests go to it; the first time it fails, the composite unwraps
/// it to its raw resource, builds a fresh second backend from the builder it
/// carries, retries the failed request there, and commits the new state — a
/// one-shot, one-directional switch of backend type. The guard state is set
/// before this multi-step transition and only cleared when it commits, so an
/// interrupted transition could never be mistaken for a working storage.
pub struct SingleElement<F, S, FB, SB>(Inner<F, S, FB, SB>);

/// Handle of the alternative storage: one of the two backends' handle
/// representations; only the arm matching the backend that produced it is
/// ever meaningful.
#[derive(Clone, Copy, Debug)]
pub enum SingleElementHandle<F, S> {
    /// First storage handle.
    First(F),
    /// Second storage handle.
    Second(S),
}

impl<F, S, FB, SB> SingleElement<F, S, FB, SB> {
    /// The composite currently holds the first backend.
    pub closed spec fn is_first(&self) -> bool {
        self.0 is First
    }

    /// The composite currently holds the second backend.
    pub closed spec fn is_second(&self) -> bool {
        self.0 is Second
    }

    /// An interrupted transition left the composite unusable.
    pub closed spec fn is_poisoned(&self) -> bool {
        self.0 is Poisoned
    }

    /// The first backend, while it is in place.
    pub closed spec fn spec_first(&self) -> F {
        self.0->First_0
    }

    /// The builder for the second backend, while the first is in place.
    pub closed spec fn spec_second_builder(&self) -> SB {
        self.0->First_1
    }

    /// The second backend, after the switch.
    pub closed spec fn spec_second(&self) -> S {
        self.0->Second_0
    }

    /// The builder the first backend was unwrapped to.
    pub closed spec fn spec_first_builder(&self) -> FB {
        self.0->Second_1
    }

    /// The three states are mutually exclusive, and the composite is always
    /// in exactly one of them.
    pub proof fn lemma_state_exclusive(&self)
        ensures
            self.is_first() ==> !self.is_second() && !self.is_poisoned(),
            self.is_second() ==> !self.is_first() && !self.is_poisoned(),
            self.is_poisoned() ==> !self.is_first() && !self.is_second(),
            self.is_first() || self.is_second() || self.is_poisoned(),
    {
    }

    /// Creates an instance containing the First alternative.
    pub fn first(first: F, second_builder: SB) -> (r: Self)
        ensures
            r.is_first(),
            !r.is_second(),
            !r.is_poisoned(),
            r.spec_first() == first,
            r.spec_second_builder() == second_builder,
    {
        SingleElement(Inner::First(first, second_builder))
    }

    /// Creates an instance containing the Second alternative.
    pub fn second(second: S, first_builder: FB) -> (r: Self)
        ensures
            r.is_second(),
            !r.is_first(),
            !r.is_poisoned(),
            r.spec_second() == second,
            r.spec_first_builder() == first_builder,
    {
        SingleElement(Inner::Second(second, first_builder))
    }
}

impl<V, F, S, FB, SB> ElementStorage<V> for SingleElement<F, S, FB, SB> where
    F: ElementStorage<V>,
    S: ElementStorage<V>,
    FB: Builder<V, F>,
    SB: Builder<V, S>,
 {
    type Handle = SingleElementHandle<F::Handle, S::Handle>;

    open spec fn wf(&self) -> bool {
        if self.is_first() {
            self.spec_first().wf()
        } else if self.is_second() {
            self.spec_second().wf()
        } else {
            false
        }
    }

    open spec fn live(&self, h: SingleElementHandle<F::Handle, S::Handle>) -> bool {
        if self.is_first() {
            h matches SingleElementHandle::First(hf) && self.spec_first().live(hf)
        } else if self.is_second() {
            h matches SingleElementHandle::Second(hs) && self.spec_second().live(hs)
        } else {
            false
        }
    }

    open spec fn full(&self, h: SingleElementHandle<F::Handle, S::Handle>) -> bool {
        if self.is_first() {
            h matches SingleElementHandle::First(hf) && self.spec_first().full(hf)
        } else if self.is_second() {
            h matches SingleElementHandle::Second(hs) && self.spec_second().full(hs)
        } else {
            false
        }
    }

    open spec fn value_at(&self, h: SingleElementHandle<F::Handle, S::Handle>) -> V {
        if self.is_first() {
            self.spec_first().value_at(h->First_0)
        } else {
            self.spec_second().value_at(h->Second_0)
        }
    }

    /// While the first backend is in place it may serve the request, or the
    /// second backend freshly built from the carried builder may; after the
    /// switch only the second backend decides.
    open spec fn can_allocate(&self, layout: Layout) -> bool {
        if self.is_first() {
            self.spec_first().can_allocate(layout) || self.spec_second_builder().built_can_allocate(
                layout,
            )
        } else if self.is_second() {
            self.spec_second().can_allocate(layout)
        } else {
            false
        }
    }

    /// Release happens on the backend currently in place, which the handle's
    /// arm must match; the state and the carried builder stay as they were.
    open spec fn after_release(
        pre: Self,
        post: Self,
        h: SingleElementHandle<F::Handle, S::Handle>,
    ) -> bool {
        if pre.is_first() {
            &&& post.is_first()
            &&& h matches SingleElementHandle::First(hf) && F::after_release(
                pre.spec_first(),
                post.spec_first(),
                hf,
            )
            &&& post.spec_second_builder() == pre.spec_second_builder()
        } else if pre.is_second() {
            &&& post.is_second()
            &&& h matches SingleElementHandle::Second(hs) && S::after_release(
                pre.spec_second(),
                post.spec_second(),
                hs,
            )
            &&& post.spec_first_builder() == pre.spec_first_builder()
        } else {
            false
        }
    }

    /// A failure in the First state still commits the one-shot switch: the
    /// composite ends up holding a freshly built second backend, left as its
    /// own failed attempt leaves it. A failure in the Second state leaves the
    /// second backend as its failure leaves it.
    open spec fn after_failure(pre: Self, post: Self) -> bool {
        if pre.is_first() {
            &&& post.is_second()
            &&& exists|s0: S|
                {
                    &&& s0.wf()
                    &&& forall|l: Layout| #[trigger]
                        s0.can_allocate(l) == pre.spec_second_builder().built_can_allocate(l)
                    &&& #[trigger] S::after_failure(s0, post.spec_second())
                }
        } else if pre.is_second() {
            &&& post.is_second()
            &&& S::after_failure(pre.spec_second(), post.spec_second())
            &&& post.spec_first_builder() == pre.spec_first_builder()
        } else {
            false
        }
    }

    fn allocate(&mut self, meta: usize, layout: Layout) -> (r: Result<
        SingleElementHandle<F::Handle, S::Handle>,
        AllocError,
    >)
        ensures
            old(self).is_second() ==> final(self).is_second(),
            old(self).is_first() && old(self).spec_first().can_allocate(layout) ==> final(self).is_first() && r is Ok,
            old(self).is_first() && !old(self).spec_first().can_allocate(layout) ==> final(self).is_second(),
            final(self).is_first() ==> (r matches Ok(h) ==> h is First),
            final(self).is_second() ==> (r matches Ok(h) ==> h is Second),
    {
        let mut inner = Inner::Poisoned;
        mem::swap(&mut self.0, &mut inner);
        match inner {
            Inner::First(mut first, second_builder) => {
                match first.allocate(meta, layout) {
                    Ok(hf) => {
                        self.0 = Inner::First(first, second_builder);
                        Ok(SingleElementHandle::First(hf))
                    },
                    Err(e) => {
                        let first_builder = FB::from_storage(first);
                        let mut second = second_builder.into_storage();
                        let ghost fresh = second;
                        let r = match second.allocate(meta, layout) {
                            Ok(hs) => Ok(SingleElementHandle::Second(hs)),
                            Err(e) => Err(e),
                        };
                        self.0 = Inner::Second(second, first_builder);
                        proof {
                            if r is Err {
                                assert(S::after_failure(fresh, self.spec_second()));
                            }
                        }
                        r
                    },
                }
            },
            Inner::Second(mut second, first_builder) => {
                let r = match second.allocate(meta, layout) {
                    Ok(hs) => Ok(SingleElementHandle::Second(hs)),
                    Err(e) => Err(e),
                };
                self.0 = Inner::Second(second, first_builder);
                r
            },
            Inner::Poisoned => unreached(),
        }
    }

    fn create(&mut self, value: V, layout: Layout) -> (r: Result<
        SingleElementHandle<F::Handle, S::Handle>,
        V,
    >)
        ensures
            old(self).is_second() ==> final(self).is_second(),
            old(self).is_first() && old(self).spec_first().can_allocate(layout) ==> final(self).is_first() && r is Ok,
            old(self).is_first() && !old(self).spec_first().can_allocate(layout) ==> final(self).is_second(),
            final(self).is_first() ==> (r matches Ok(h) ==> h is First),
            final(self).is_second() ==> (r matches Ok(h) ==> h is Second),
    {
        let mut inner = Inner::Poisoned;
        mem::swap(&mut self.0, &mut inner);
        match inner {
            Inner::First(mut first, second_builder) => {
                match first.create(value, layout) {
                    Ok(hf) => {
                        self.0 = Inner::First(first, second_builder);
                        Ok(SingleElementHandle::First(hf))
                    },
                    Err(value) => {
                        let first_builder = FB::from_storage(first);
                        let mut second = second_builder.into_storage();
                        let ghost fresh = second;
                        let r = match second.create(value, layout) {
                            Ok(hs) => Ok(SingleElementHandle::Second(hs)),
                            Err(v) => Err(v),
                        };
                        self.0 = Inner::Second(second, first_builder);
                        proof {
                            if r is Err {
                                assert(S::after_failure(fresh, self.spec_second()));
                            }
                        }
                        r
                    },
                }
            },
            Inner::Second(mut second, first_builder) => {
                let r = match second.create(value, layout) {
                    Ok(hs) => Ok(SingleElementHandle::Second(hs)),
                    Err(v) => Err(v),
                };
                self.0 = Inner::Second(second, first_builder);
                r
            },
            Inner::Poisoned => unreached(),
        }
    }

    fn replace(&mut self, h: SingleElementHandle<F::Handle, S::Handle>, value: V) -> (r: V)
        ensures
            final(self).is_first() == old(self).is_first(),
            final(self).is_second() == old(self).is_second(),
    {
        let mut inner = Inner::Poisoned;
        mem::swap(&mut self.0, &mut inner);
        match inner {
            Inner::First(mut first, second_builder) => {
                let r = match h {
                    SingleElementHandle::First(hf) => first.replace(hf, value),
                    SingleElementHandle::Second(hs) => unreached(),
                };
                self.0 = Inner::First(first, second_builder);
                r
            },
            Inner::Second(mut second, first_builder) => {
                let r = match h {
                    SingleElementHandle::Second(hs) => second.replace(hs, value),
                    SingleElementHandle::First(hf) => unreached(),
                };
                self.0 = Inner::Second(second, first_builder);
                r
            },
            Inner::Poisoned => unreached(),
        }
    }

    fn take(&mut self, h: SingleElementHandle<F::Handle, S::Handle>) -> (r: V)
        ensures
            final(self).is_first() == old(self).is_first(),
            final(self).is_second() == old(self).is_second(),
    {
        let mut inner = Inner::Poisoned;
        mem::swap(&mut self.0, &mut inner);
        match inner {
            Inner::First(mut first, second_builder) => {
                let r = match h {
                    SingleElementHandle::First(hf) => first.take(hf),
                    SingleElementHandle::Second(hs) => unreached(),
                };
                self.0 = Inner::First(first, second_builder);
                r
            },
            Inner::Second(mut second, first_builder) => {
                let r = match h {
                    SingleElementHandle::Second(hs) => second.take(hs),
                    SingleElementHandle::First(hf) => unreached(),
                };
                self.0 = Inner::Second(second, first_builder);
                r
            },
            Inner::Poisoned => unreached(),
        }
    }

    fn get(&self, h: SingleElementHandle<F::Handle, S::Handle>) -> (r: &V) {
        match &self.0 {
            Inner::First(first, second_builder) => match h {
                SingleElementHandle::First(hf) => first.get(hf),
                SingleElementHandle::Second(hs) => unreached(),
            },
            Inner::Second(second, first_builder) => match h {
                SingleElementHandle::Second(hs) => second.get(hs),
                SingleElementHandle::First(hf) => unreached(),
            },
            Inner::Poisoned => unreached(),
        }
    }

    fn coerce(&self, h: SingleElementHandle<F::Handle, S::Handle>, meta: usize) -> (r:
        SingleElementHandle<F::Handle, S::Handle>)
        ensures
            r is First <==> h is First,
    {
        match &self.0 {
            Inner::First(first, second_builder) => match h {
                SingleElementHandle::First(hf) => SingleElementHandle::First(
                    first.coerce(hf, meta),
                ),
                SingleElementHandle::Second(hs) => unreached(),
            },
            Inner::Second(second, first_builder) => match h {
                SingleElementHandle::Second(hs) => SingleElementHandle::Second(
                    second.coerce(hs, meta),
                ),
                SingleElementHandle::First(hf) => unreached(),
            },
            Inner::Poisoned => unreached(),
        }
    }

    fn deallocate(&mut self, h: SingleElementHandle<F::Handle, S::Handle>)
        ensures
            final(self).is_first() == old(self).is_first(),
            final(self).is_second() == old(self).is_second(),
    {
        let mut inner = Inner::Poisoned;
        mem::swap(&mut self.0, &mut inner);
        match inner {
            Inner::First(mut first, second_builder) => {
                match h {
                    SingleElementHandle::First(hf) => first.deallocate(hf),
                    SingleElementHandle::Second(hs) => unreached(),
                }
                self.0 = Inner::First(first, second_builder);
            },
            Inner::Second(mut second, first_builder) => {
                match h {
                    SingleElementHandle::Second(hs) => second.deallocate(hs),
                    SingleElementHandle::First(hf) => unreached(),
                }
                self.0 = Inner::Second(second, first_builder);
            },
            Inner::Poisoned => unreached(),
        }
    }
}

} // verus!
