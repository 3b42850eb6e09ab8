//! Fallback composition of two range storages.

use vstd::prelude::*;

use crate::layout::{AllocError, Layout};
use crate::traits::{Capacity, RangeStorage};

verus! {

/// A pair of range storages: allocations go to the first, and on failure to
/// the second at the full requested capacity. Growth of a first-tagged handle
/// that cannot happen in place migrates the data into the second backend;
/// shrinking a second-tagged handle back below the first backend's reach
/// migrates it back. The two backends may use different capacity widths, so
/// every capacity crossing the boundary is checked to fit.
pub struct FallbackRange<F, S> {
    first: F,
    second: S,
}

/// Handle of the fallback range storage: one of the two backends' handles,
/// tagged by the backend that produced it.
#[derive(Clone, Copy, Debug)]
pub enum FallbackRangeHandle<F, S> {
    /// First storage handle.
    First(F),
    /// Second storage handle.
    Second(S),
}

impl<F, S> FallbackRange<F, S> {
    /// The preferred backend.
    pub closed spec fn spec_first(&self) -> F {
        self.first
    }

    /// The backend used when the first fails.
    pub closed spec fn spec_second(&self) -> S {
        self.second
    }

    /// Creates an instance.
    pub fn new(first: F, second: S) -> (r: Self)
        ensures
            r.spec_first() == first,
            r.spec_second() == second,
    {
        FallbackRange { first, second }
    }
}

/// Converts a capacity of one width into another, failing when the count is
/// not representable there.
fn into_first<CF: Capacity, CS: Capacity>(capacity: CS) -> (r: Result<CF, AllocError>)
    ensures
        capacity.as_int() <= CF::spec_max() ==> (r matches Ok(c) && c.as_int()
            == capacity.as_int()),
        capacity.as_int() > CF::spec_max() ==> r is Err,
{
    proof {
        capacity.lemma_bounds();
    }
    match CF::from_usize(capacity.into_usize()) {
        Some(c) => Ok(c),
        None => Err(AllocError),
    }
}

/// The storage is in a state some predecessor reached by releasing the buffer
/// behind `h`: how a composite states that a migration gave the block back.
pub open spec fn range_block_released<V, A: RangeStorage<V>>(post: A, h: A::Handle) -> bool {
    exists|mid: A| #[trigger] A::after_release(mid, post, h)
}

/// Moves the first `count` slots of one buffer into another, one value at a
/// time; the slots moved out are left unoccupied.
fn transfer<V, A: RangeStorage<V>, B: RangeStorage<V>>(
    from: &mut A,
    fh: A::Handle,
    to: &mut B,
    th: B::Handle,
    count: usize,
)
    requires
        old(from).wf(),
        old(to).wf(),
        old(from).valid(fh),
        old(to).valid(th),
        count <= old(from).cap_of(fh),
        count <= old(to).cap_of(th),
    ensures
        final(from).wf(),
        final(to).wf(),
        final(from).valid(fh),
        final(to).valid(th),
        final(from).cap_of(fh) == old(from).cap_of(fh),
        final(to).cap_of(th) == old(to).cap_of(th),
        final(from).shape_of(fh) == old(from).shape_of(fh),
        final(to).shape_of(th) == old(to).shape_of(th),
        final(to).contents(th).len() == old(to).contents(th).len(),
        forall|j: int| 0 <= j < count ==> final(to).contents(th)[j] == old(from).contents(fh)[j],
        forall|j: int|
            count <= j < old(to).contents(th).len() ==> final(to).contents(th)[j] == old(
                to,
            ).contents(th)[j],
{
    proof {
        old(from).lemma_valid_contents(fh);
        old(to).lemma_valid_contents(th);
    }
    let ghost moved = old(from).contents(fh);
    let mut i: usize = 0;
    while i < count
        invariant
            i <= count,
            from.wf(),
            to.wf(),
            from.valid(fh),
            to.valid(th),
            from.cap_of(fh) == old(from).cap_of(fh),
            to.cap_of(th) == old(to).cap_of(th),
            from.shape_of(fh) == old(from).shape_of(fh),
            to.shape_of(th) == old(to).shape_of(th),
            count <= old(from).cap_of(fh),
            count <= old(to).cap_of(th),
            from.contents(fh).len() == old(from).contents(fh).len(),
            to.contents(th).len() == old(to).contents(th).len(),
            moved == old(from).contents(fh),
            moved.len() == old(from).cap_of(fh),
            old(to).contents(th).len() == old(to).cap_of(th),
            forall|j: int| i <= j < moved.len() ==> from.contents(fh)[j] == moved[j],
            forall|j: int| 0 <= j < i ==> to.contents(th)[j] == moved[j],
            forall|j: int|
                i <= j < old(to).contents(th).len() ==> to.contents(th)[j] == old(to).contents(
                    th,
                )[j],
        decreases count - i,
    {
        let value = from.write(fh, i, None);
        let evicted = to.write(th, i, value);
        i = i + 1;
    }
}

impl<V, F: RangeStorage<V>, S: RangeStorage<V>> RangeStorage<V> for FallbackRange<F, S> {
    type Handle = FallbackRangeHandle<F::Handle, S::Handle>;

    type Capacity = S::Capacity;

    open spec fn wf(&self) -> bool {
        self.spec_first().wf() && self.spec_second().wf()
    }

    open spec fn valid(&self, h: FallbackRangeHandle<F::Handle, S::Handle>) -> bool {
        match h {
            FallbackRangeHandle::First(hf) => self.spec_first().valid(hf),
            FallbackRangeHandle::Second(hs) => self.spec_second().valid(hs),
        }
    }

    open spec fn cap_of(&self, h: FallbackRangeHandle<F::Handle, S::Handle>) -> int {
        match h {
            FallbackRangeHandle::First(hf) => self.spec_first().cap_of(hf),
            FallbackRangeHandle::Second(hs) => self.spec_second().cap_of(hs),
        }
    }

    open spec fn shape_of(&self, h: FallbackRangeHandle<F::Handle, S::Handle>) -> Layout {
        match h {
            FallbackRangeHandle::First(hf) => self.spec_first().shape_of(hf),
            FallbackRangeHandle::Second(hs) => self.spec_second().shape_of(hs),
        }
    }

    open spec fn contents(&self, h: FallbackRangeHandle<F::Handle, S::Handle>) -> Seq<Option<V>> {
        match h {
            FallbackRangeHandle::First(hf) => self.spec_first().contents(hf),
            FallbackRangeHandle::Second(hs) => self.spec_second().contents(hs),
        }
    }

    /// The composite can allocate whenever the first backend can hold the
    /// count in its own capacity width and grant it, or the second can.
    open spec fn can_allocate(&self, count: int, elem: Layout) -> bool {
        ||| (count <= F::Capacity::spec_max() && self.spec_first().can_allocate(count, elem))
        ||| self.spec_second().can_allocate(count, elem)
    }

    /// A first-tagged handle grows in place when the count fits the first
    /// backend's width and it can grow, and otherwise by migration when the
    /// second backend can allocate the count; a second-tagged handle grows
    /// only where it is.
    open spec fn can_grow(
        &self,
        h: FallbackRangeHandle<F::Handle, S::Handle>,
        count: int,
        elem: Layout,
    ) -> bool {
        match h {
            FallbackRangeHandle::First(hf) => (count <= F::Capacity::spec_max()
                && self.spec_first().can_grow(hf, count, elem)) || self.spec_second().can_allocate(
                count,
                elem,
            ),
            FallbackRangeHandle::Second(hs) => self.spec_second().can_grow(hs, count, elem),
        }
    }

    /// A first-tagged handle shrinks in place when the count fits the first
    /// backend's width and it can shrink; a second-tagged handle migrates
    /// back when the first backend can allocate the count, and otherwise
    /// shrinks where it is.
    open spec fn can_shrink(
        &self,
        h: FallbackRangeHandle<F::Handle, S::Handle>,
        count: int,
        elem: Layout,
    ) -> bool {
        match h {
            FallbackRangeHandle::First(hf) => count <= F::Capacity::spec_max()
                && self.spec_first().can_shrink(hf, count, elem),
            FallbackRangeHandle::Second(hs) => (count <= F::Capacity::spec_max()
                && self.spec_first().can_allocate(count, elem)) || self.spec_second().can_shrink(
                hs,
                count,
                elem,
            ),
        }
    }

    /// Release happens on the backend the tag names and leaves the other
    /// exactly as it was.
    open spec fn after_release(
        pre: Self,
        post: Self,
        h: FallbackRangeHandle<F::Handle, S::Handle>,
    ) -> bool {
        match h {
            FallbackRangeHandle::First(hf) => F::after_release(
                pre.spec_first(),
                post.spec_first(),
                hf,
            ) && post.spec_second() == pre.spec_second(),
            FallbackRangeHandle::Second(hs) => S::after_release(
                pre.spec_second(),
                post.spec_second(),
                hs,
            ) && post.spec_first() == pre.spec_first(),
        }
    }

    /// The sum of both maxima, saturating, clamped to the composite capacity
    /// type's own maximum.
    open spec fn max_cap(&self, elem: Layout) -> int {
        let total = if self.spec_first().max_cap(elem) + self.spec_second().max_cap(elem)
            <= usize::MAX {
            self.spec_first().max_cap(elem) + self.spec_second().max_cap(elem)
        } else {
            usize::MAX as int
        };
        if total <= S::Capacity::spec_max() {
            total
        } else {
            S::Capacity::spec_max()
        }
    }

    proof fn lemma_valid_contents(&self, h: FallbackRangeHandle<F::Handle, S::Handle>) {
        match h {
            FallbackRangeHandle::First(hf) => self.spec_first().lemma_valid_contents(hf),
            FallbackRangeHandle::Second(hs) => self.spec_second().lemma_valid_contents(hs),
        }
    }

    fn maximum_capacity(&self, elem: Layout) -> (r: S::Capacity) {
        let fm = self.first.maximum_capacity(elem);
        let sm = self.second.maximum_capacity(elem);
        proof {
            fm.lemma_bounds();
            sm.lemma_bounds();
        }
        let fu = fm.into_usize();
        let su = sm.into_usize();
        let total = if fu > usize::MAX - su {
            usize::MAX
        } else {
            fu + su
        };
        match S::Capacity::from_usize(total) {
            Some(c) => c,
            None => S::Capacity::max(),
        }
    }

    fn allocate(&mut self, capacity: S::Capacity, elem: Layout) -> (r: Result<
        FallbackRangeHandle<F::Handle, S::Handle>,
        AllocError,
    >)
        ensures
            r matches Ok(nh) ==> ((capacity.as_int() <= F::Capacity::spec_max() && old(
                self,
            ).spec_first().can_allocate(capacity.as_int(), elem)) <==> nh is First),
    {
        proof {
            capacity.lemma_bounds();
        }
        match into_first::<F::Capacity, S::Capacity>(capacity) {
            Ok(fcap) => match self.first.allocate(fcap, elem) {
                Ok(hf) => {
                    return Ok(FallbackRangeHandle::First(hf));
                },
                Err(e) => {},
            },
            Err(e) => {},
        }
        match self.second.allocate(capacity, elem) {
            Ok(hs) => Ok(FallbackRangeHandle::Second(hs)),
            Err(e) => Err(e),
        }
    }

    fn capacity_of(&self, h: FallbackRangeHandle<F::Handle, S::Handle>) -> (r: usize) {
        match h {
            FallbackRangeHandle::First(hf) => self.first.capacity_of(hf),
            FallbackRangeHandle::Second(hs) => self.second.capacity_of(hs),
        }
    }

    fn read(&self, h: FallbackRangeHandle<F::Handle, S::Handle>, i: usize) -> (r: &Option<V>) {
        match h {
            FallbackRangeHandle::First(hf) => self.first.read(hf, i),
            FallbackRangeHandle::Second(hs) => self.second.read(hs, i),
        }
    }

    fn write(&mut self, h: FallbackRangeHandle<F::Handle, S::Handle>, i: usize, value: Option<
        V,
    >) -> (r: Option<V>)
        ensures
            h is First ==> final(self).spec_second() == old(self).spec_second(),
            h is Second ==> final(self).spec_first() == old(self).spec_first(),
    {
        match h {
            FallbackRangeHandle::First(hf) => self.first.write(hf, i, value),
            FallbackRangeHandle::Second(hs) => self.second.write(hs, i, value),
        }
    }

    /// Growth of a first-tagged handle is tried in place first; on failure
    /// the data migrates into the second backend. A second-tagged handle only
    /// ever grows in the second backend.
    fn try_grow(
        &mut self,
        h: FallbackRangeHandle<F::Handle, S::Handle>,
        new_capacity: S::Capacity,
        elem: Layout,
    ) -> (r: Result<FallbackRangeHandle<F::Handle, S::Handle>, AllocError>)
        ensures
            h is Second ==> (r matches Ok(nh) ==> nh is Second),
            h is Second ==> final(self).spec_first() == old(self).spec_first(),
            (r matches Ok(nh) && nh is First) ==> final(self).spec_second() == old(
                self,
            ).spec_second(),
            h matches FallbackRangeHandle::First(hf) ==> (r matches Ok(nh) ==> (nh is First <==> (
            new_capacity.as_int() <= F::Capacity::spec_max() && old(self).spec_first().can_grow(
                hf,
                new_capacity.as_int(),
                elem,
            )))),
            r matches Ok(nh) && h is First && nh is Second ==> old(
                self,
            ).spec_second().can_allocate(new_capacity.as_int(), elem),
            r matches Ok(nh) && h is First && nh is Second ==> range_block_released::<V, F>(
                final(self).spec_first(),
                h->First_0,
            ),
    {
        proof {
            new_capacity.lemma_bounds();
        }
        match h {
            FallbackRangeHandle::First(hf) => {
                let grown = match into_first::<F::Capacity, S::Capacity>(new_capacity) {
                    Ok(fcap) => self.first.try_grow(hf, fcap, elem),
                    Err(e) => Err(e),
                };
                match grown {
                    Ok(nh) => Ok(FallbackRangeHandle::First(nh)),
                    Err(e) => {
                        let sh = match self.second.allocate(new_capacity, elem) {
                            Ok(sh) => sh,
                            Err(e) => {
                                return Err(AllocError);
                            },
                        };
                        let count = self.first.capacity_of(hf);
                        transfer(&mut self.first, hf, &mut self.second, sh, count);
                        let ghost released_from = self.first;
                        self.first.deallocate(hf);
                        proof {
                            assert(range_block_released::<V, F>(self.first, h->First_0)) by {
                                assert(F::after_release(released_from, self.first, h->First_0));
                            }
                        }
                        Ok(FallbackRangeHandle::Second(sh))
                    },
                }
            },
            FallbackRangeHandle::Second(hs) => {
                match self.second.try_grow(hs, new_capacity, elem) {
                    Ok(nh) => Ok(FallbackRangeHandle::Second(nh)),
                    Err(e) => Err(e),
                }
            },
        }
    }

    /// Shrinking a second-tagged handle to a capacity the first backend can
    /// hold migrates the data back, freeing the second backend's block;
    /// otherwise the block shrinks where it is.
    fn try_shrink(
        &mut self,
        h: FallbackRangeHandle<F::Handle, S::Handle>,
        new_capacity: S::Capacity,
        elem: Layout,
    ) -> (r: Result<FallbackRangeHandle<F::Handle, S::Handle>, AllocError>)
        ensures
            h is First ==> (r matches Ok(nh) ==> nh is First),
            h is First ==> final(self).spec_second() == old(self).spec_second(),
            (r matches Ok(nh) && nh is Second) ==> final(self).spec_first() == old(
                self,
            ).spec_first(),
            h matches FallbackRangeHandle::Second(hs) ==> (r matches Ok(nh) ==> (nh is First <==> (
            new_capacity.as_int() <= F::Capacity::spec_max() && old(
                self,
            ).spec_first().can_allocate(new_capacity.as_int(), elem)))),
            r matches Ok(nh) && h is Second && nh is First ==> range_block_released::<V, S>(
                final(self).spec_second(),
                h->Second_0,
            ),
    {
        proof {
            new_capacity.lemma_bounds();
        }
        match h {
            FallbackRangeHandle::First(hf) => {
                match into_first::<F::Capacity, S::Capacity>(new_capacity) {
                    Ok(fcap) => match self.first.try_shrink(hf, fcap, elem) {
                        Ok(nh) => Ok(FallbackRangeHandle::First(nh)),
                        Err(e) => Err(e),
                    },
                    Err(e) => Err(e),
                }
            },
            FallbackRangeHandle::Second(hs) => {
                let back = match into_first::<F::Capacity, S::Capacity>(new_capacity) {
                    Ok(fcap) => match self.first.allocate(fcap, elem) {
                        Ok(fh) => Some(fh),
                        Err(e) => None,
                    },
                    Err(e) => None,
                };
                match back {
                    Some(fh) => {
                        let count = new_capacity.into_usize();
                        proof {
                            self.second.lemma_valid_contents(hs);
                        }
                        transfer(&mut self.second, hs, &mut self.first, fh, count);
                        let ghost released_from = self.second;
                        self.second.deallocate(hs);
                        proof {
                            assert(range_block_released::<V, S>(self.second, h->Second_0)) by {
                                assert(S::after_release(released_from, self.second, h->Second_0));
                            }
                        }
                        Ok(FallbackRangeHandle::First(fh))
                    },
                    None => match self.second.try_shrink(hs, new_capacity, elem) {
                        Ok(nh) => Ok(FallbackRangeHandle::Second(nh)),
                        Err(e) => Err(e),
                    },
                }
            },
        }
    }

    fn deallocate(&mut self, h: FallbackRangeHandle<F::Handle, S::Handle>) {
        match h {
            FallbackRangeHandle::First(hf) => self.first.deallocate(hf),
            FallbackRangeHandle::Second(hs) => self.second.deallocate(hs),
        }
    }
}

} // verus!
