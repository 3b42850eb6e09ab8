//! Inline range storage without tracking: one fixed embedded array.

use vstd::prelude::*;

use core::marker::PhantomData;

use crate::layout::{AllocError, Layout};
use crate::traits::{Capacity, RangeStorage};

verus! {

/// Handle of the non-tracking range storage. It always describes the entire
/// fixed array, so it carries nothing; callers that want partial use track
/// their own logical length on top.
#[derive(Clone, Copy, Debug)]
pub struct NonTrackingRangeHandle {}

/// A fixed-size embedded array of slots, allocated all at once. `allocate`
/// validates that the requested capacity and element shape fit, then hands
/// out the entire array; there is no grow or shrink, the size is fixed by
/// construction, and `deallocate` is a no-op.
pub struct NonTrackingRange<C, V> {
    data: Vec<Option<V>>,
    slot: Layout,
    shape: Layout,
    capacity_kind: PhantomData<C>,
}

impl<C: Capacity, V> NonTrackingRange<C, V> {
    /// The number of embedded slots.
    pub closed spec fn slots(&self) -> int {
        self.data@.len() as int
    }

    /// The shape of one embedded slot.
    pub closed spec fn slot_shape(&self) -> Layout {
        self.slot
    }

    /// The shape of the whole embedded array.
    pub open spec fn total_shape(&self) -> Layout {
        Layout {
            size: (self.slot_shape().size * self.slots()) as usize,
            align: self.slot_shape().align,
        }
    }

    /// Creates an instance embedding `n` slots of the given shape.
    pub fn new(n: usize, slot: Layout) -> (r: Self)
        requires
            slot.wf(),
            slot.size * n <= usize::MAX,
        ensures
            r.wf(),
            r.slots() == n,
            r.slot_shape() == slot,
    {
        let mut data: Vec<Option<V>> = Vec::new();
        let mut i: usize = 0;
        while i < n
            invariant
                i <= n,
                data@.len() == i as int,
            decreases n - i,
        {
            data.push(None);
            i = i + 1;
        }
        NonTrackingRange { data, slot, shape: slot, capacity_kind: PhantomData }
    }
}

impl<C: Capacity, V> RangeStorage<V> for NonTrackingRange<C, V> {
    type Handle = NonTrackingRangeHandle;

    type Capacity = C;

    closed spec fn wf(&self) -> bool {
        &&& self.slot.wf()
        &&& self.shape.wf()
        &&& self.slot.size * self.data@.len() <= usize::MAX
    }

    open spec fn valid(&self, h: NonTrackingRangeHandle) -> bool {
        true
    }

    open spec fn cap_of(&self, h: NonTrackingRangeHandle) -> int {
        self.slots()
    }

    closed spec fn shape_of(&self, h: NonTrackingRangeHandle) -> Layout {
        self.shape
    }

    closed spec fn contents(&self, h: NonTrackingRangeHandle) -> Seq<Option<V>> {
        self.data@
    }

    /// The requested count must not exceed the array's length, and an array
    /// of `count` elements must fit the whole embedded array in both size and
    /// alignment.
    open spec fn can_allocate(&self, count: int, elem: Layout) -> bool {
        &&& 0 <= count <= self.slots()
        &&& elem.spec_array(count) matches Some(al) && al.spec_fits(self.total_shape())
    }

    /// The size is fixed by construction: no growth ever succeeds.
    open spec fn can_grow(&self, h: NonTrackingRangeHandle, count: int, elem: Layout) -> bool {
        false
    }

    /// The size is fixed by construction: no shrinking ever succeeds.
    open spec fn can_shrink(&self, h: NonTrackingRangeHandle, count: int, elem: Layout) -> bool {
        false
    }

    /// Release is a no-op: the array is merely eligible for reuse.
    open spec fn after_release(pre: Self, post: Self, h: NonTrackingRangeHandle) -> bool {
        post == pre
    }

    open spec fn max_cap(&self, elem: Layout) -> int {
        let cap = if C::spec_max() < self.slots() {
            C::spec_max()
        } else {
            self.slots()
        };
        let scaled = self.slot_shape().size * cap / elem.size as int;
        if scaled <= C::spec_max() {
            scaled
        } else {
            cap
        }
    }

    proof fn lemma_valid_contents(&self, h: NonTrackingRangeHandle) {
    }

    fn maximum_capacity(&self, elem: Layout) -> (r: C) {
        let n = self.data.len();
        let cm = C::max();
        proof {
            cm.lemma_bounds();
        }
        let cmax = cm.into_usize();
        let capacity = if cmax < n {
            cmax
        } else {
            n
        };
        assert(self.slot.size * capacity <= self.slot.size * n) by (nonlinear_arith)
            requires
                capacity <= n,
                self.slot.size >= 0,
        ;
        let scaled = (self.slot.size * capacity) / elem.size;
        match C::from_usize(scaled) {
            Some(c) => c,
            None => match C::from_usize(capacity) {
                Some(c) => c,
                None => unreached(),
            },
        }
    }

    /// Validates that the requested capacity and element shape fit, then
    /// hands out the entire fixed array afresh, whatever smaller capacity was
    /// asked for.
    fn allocate(&mut self, capacity: C, elem: Layout) -> (r: Result<
        NonTrackingRangeHandle,
        AllocError,
    >)
        ensures
            final(self).slots() == old(self).slots(),
            final(self).slot_shape() == old(self).slot_shape(),
            r matches Ok(h) ==> final(self).cap_of(h) == old(self).slots(),
    {
        let cap = capacity.into_usize();
        proof {
            capacity.lemma_bounds();
        }
        let requested = match elem.array(cap) {
            Some(al) => al,
            None => {
                return Err(AllocError);
            },
        };
        let n = self.data.len();
        let total = match self.slot.array(n) {
            Some(t) => t,
            None => unreached(),
        };
        if cap <= n && requested.fits(&total) {
            let mut fresh: Vec<Option<V>> = Vec::new();
            let mut i: usize = 0;
            while i < n
                invariant
                    i <= n,
                    fresh@.len() == i as int,
                    forall|j: int| 0 <= j < i ==> fresh@[j] is None,
                decreases n - i,
            {
                fresh.push(None);
                i = i + 1;
            }
            self.data = fresh;
            self.shape = elem;
            Ok(NonTrackingRangeHandle {})
        } else {
            Err(AllocError)
        }
    }

    fn capacity_of(&self, h: NonTrackingRangeHandle) -> (r: usize) {
        self.data.len()
    }

    fn read(&self, h: NonTrackingRangeHandle, i: usize) -> (r: &Option<V>) {
        &self.data[i]
    }

    fn write(&mut self, h: NonTrackingRangeHandle, i: usize, value: Option<V>) -> (r: Option<V>) {
        self.data.push(value);
        let r = self.data.swap_remove(i);
        proof {
            assert(self.data@ =~= old(self).data@.update(i as int, value));
        }
        r
    }

    /// The array's size is fixed by construction: growth always fails.
    fn try_grow(&mut self, h: NonTrackingRangeHandle, new_capacity: C, elem: Layout) -> (r: Result<
        NonTrackingRangeHandle,
        AllocError,
    >)
        ensures
            r is Err,
    {
        Err(AllocError)
    }

    /// The array's size is fixed by construction: shrinking always fails.
    fn try_shrink(&mut self, h: NonTrackingRangeHandle, new_capacity: C, elem: Layout) -> (r:
        Result<NonTrackingRangeHandle, AllocError>)
        ensures
            r is Err,
    {
        Err(AllocError)
    }

    fn deallocate(&mut self, h: NonTrackingRangeHandle)
        ensures
            *final(self) == *old(self),
    {
    }
}

} // verus!
