//! Inline element storage with several slots managed by an embedded free
//! list.

use vstd::prelude::*;

use vstd::set_lib::{lemma_int_range, lemma_len_subset, lemma_subset_equality, set_int_range};

use crate::layout::{AllocError, Layout};
use crate::traits::ElementStorage;

verus! {

/// Sentinel index terminating the free list.
const INVALID_NEXT: usize = usize::MAX;

/// One slot: either part of the free list, carrying the index of the next
/// free slot, or reserved space, or an active value. A raw layout would
/// overlay the interpretations in the same memory; a tagged sum loses nothing
/// since the uses are disjoint, and handles are small.
enum Slot<V> {
    Free { next: usize },
    Reserved,
    Data { value: V },
}

/// Handle of the tracking storage: the index of the slot and the metadata
/// captured at allocation.
#[derive(Clone, Copy, Debug)]
pub struct TrackingElementHandle {
    pub index: usize,
    pub meta: usize,
}

/// A fixed number of equal-shaped slots threaded by a singly-linked free
/// list. `allocate` pops the head of the list and `deallocate` pushes the
/// slot back on the head, so both are constant-time and reuse is LIFO; there
/// is no search and no compaction, which costs nothing since all slots have
/// the same shape.
pub struct TrackingElement<V> {
    slots: Vec<Slot<V>>,
    next: usize,
    slot_layout: Layout,
    free: Ghost<Seq<int>>,
}

impl<V> TrackingElement<V> {
    /// The index at position `i` of the free list would hand on.
    spec fn next_after(&self, i: int) -> usize {
        if i == self.free@.len() - 1 {
            INVALID_NEXT
        } else {
            self.free@[i + 1] as usize
        }
    }

    /// Head of the free list as stored in `next`.
    spec fn head_value(&self) -> usize {
        if self.free@.len() == 0 {
            INVALID_NEXT
        } else {
            self.free@[0] as usize
        }
    }

    /// The number of slots.
    pub closed spec fn capacity(&self) -> int {
        self.slots@.len() as int
    }

    /// The number of slots currently on the free list.
    pub closed spec fn free_len(&self) -> int {
        self.free@.len() as int
    }

    /// The shape of one slot.
    pub closed spec fn slot_shape(&self) -> Layout {
        self.slot_layout
    }

    /// The slot index at the head of the free list: the next allocation takes
    /// it, and a release puts the released slot there. Meaningful while the
    /// free list is not empty.
    pub closed spec fn free_head(&self) -> int {
        self.free@[0]
    }

    /// Creates an instance with `n` slots of the given shape, all of them
    /// linked onto the free list.
    pub fn new(n: usize, slot_layout: Layout) -> (r: Self)
        requires
            slot_layout.wf(),
            n < usize::MAX,
        ensures
            r.wf(),
            r.capacity() == n,
            r.free_len() == n,
            r.slot_shape() == slot_layout,
            forall|h: TrackingElementHandle| !r.live(h),
    {
        let mut slots: Vec<Slot<V>> = Vec::new();
        let mut i: usize = 0;
        while i < n
            invariant
                i <= n,
                n < usize::MAX,
                slots@.len() == i as int,
                forall|j: int|
                    0 <= j < i ==> (#[trigger] slots@[j] matches Slot::Free { next } && next == (
                    if j + 1 == n {
                        INVALID_NEXT
                    } else {
                        (j + 1) as usize
                    })),
            decreases n - i,
        {
            let next = if i + 1 == n {
                INVALID_NEXT
            } else {
                i + 1
            };
            slots.push(Slot::Free { next });
            i = i + 1;
        }
        let next = if n == 0 {
            INVALID_NEXT
        } else {
            0
        };
        let r = TrackingElement {
            slots,
            next,
            slot_layout,
            free: Ghost(Seq::new(n as nat, |j: int| j)),
        };
        proof {
            assert forall|k: int|
                0 <= k < r.slots@.len() && (#[trigger] r.slots@[k]) is Free implies r.free@.contains(
                k,
            ) by {
                assert(r.free@[k] == k);
            }
        }
        r
    }

    /// Order-independent capacity restoration: allocating until exhaustion
    /// reserves every slot and one more request fails; releasing all of them,
    /// in whatever order the caller chooses, restores the whole capacity, and
    /// a second round of allocations up to the capacity succeeds again before
    /// failing once more. Verified for every capacity, slot shape and release
    /// order.
    pub fn recycle_capacity(&mut self, order: &Vec<usize>, layout: Layout) -> (handles: Vec<
        TrackingElementHandle,
    >)
        requires
            old(self).wf(),
            old(self).free_len() == old(self).capacity(),
            layout.wf(),
            layout.spec_fits(old(self).slot_shape()),
            order@.no_duplicates(),
            order@.len() == old(self).capacity(),
            forall|i: int| 0 <= i < order@.len() ==> order@[i] < old(self).capacity(),
        ensures
            final(self).wf(),
            final(self).capacity() == old(self).capacity(),
            final(self).free_len() == 0,
            handles@.len() == old(self).capacity(),
    {
        let n = order.len();
        let mut held: Vec<TrackingElementHandle> = Vec::new();
        let mut i: usize = 0;
        while i < n
            invariant
                i <= n,
                self.wf(),
                layout.wf(),
                layout.spec_fits(self.slot_shape()),
                self.capacity() == n,
                self.slot_shape() == old(self).slot_shape(),
                self.free_len() == n - i,
                held@.len() == i as int,
                forall|j: int| 0 <= j < i ==> self.live(#[trigger] held@[j]),
                forall|j: int, k: int|
                    0 <= j < k < i ==> (#[trigger] held@[j]).index != (#[trigger] held@[k]).index,
            decreases n - i,
        {
            match self.allocate(0, layout) {
                Ok(h) => {
                    held.push(h);
                },
                Err(e) => {
                    unreached::<()>()
                },
            }
            i = i + 1;
        }
        match self.allocate(0, layout) {
            Err(e) => {},
            Ok(h) => {
                unreached::<()>()
            },
        }
        let mut i: usize = 0;
        while i < n
            invariant
                i <= n,
                self.wf(),
                layout.wf(),
                layout.spec_fits(self.slot_shape()),
                self.capacity() == n,
                self.slot_shape() == old(self).slot_shape(),
                self.free_len() == i as int,
                held@.len() == n as int,
                order@.no_duplicates(),
                order@.len() == n as int,
                forall|j: int| 0 <= j < n ==> order@[j] < n,
                forall|j: int, k: int|
                    0 <= j < k < n ==> (#[trigger] held@[j]).index != (#[trigger] held@[k]).index,
                forall|j: int| i <= j < n ==> self.live(#[trigger] held@[order@[j] as int]),
            decreases n - i,
        {
            let slot = order[i];
            self.deallocate(held[slot]);
            proof {
                assert forall|j: int|
                    i + 1 <= j < n implies self.live(#[trigger] held@[order@[j] as int]) by {
                    assert(order@[j] != order@[i as int]);
                }
            }
            i = i + 1;
        }
        let mut fresh: Vec<TrackingElementHandle> = Vec::new();
        let mut i: usize = 0;
        while i < n
            invariant
                i <= n,
                self.wf(),
                layout.wf(),
                layout.spec_fits(self.slot_shape()),
                self.capacity() == n,
                self.slot_shape() == old(self).slot_shape(),
                self.free_len() == n - i,
                fresh@.len() == i as int,
            decreases n - i,
        {
            match self.allocate(0, layout) {
                Ok(h) => {
                    fresh.push(h);
                },
                Err(e) => {
                    unreached::<()>()
                },
            }
            i = i + 1;
        }
        match self.allocate(0, layout) {
            Err(e) => {},
            Ok(h) => {
                unreached::<()>()
            },
        }
        fresh
    }

    /// The indices on the free list, as a set.
    spec fn free_index_set(&self) -> Set<int> {
        self.free@.to_set()
    }

    /// The free list holds distinct slot indices, so it can never exceed the
    /// capacity.
    pub proof fn lemma_free_len_bounded(&self)
        requires
            self.wf(),
        ensures
            0 <= self.free_len() <= self.capacity(),
    {
        let range = set_int_range(0, self.slots@.len() as int);
        lemma_int_range(0, self.slots@.len() as int);
        self.free@.unique_seq_to_set();
        assert forall|x: int| self.free_index_set().contains(x) implies range.contains(x) by {
            let i = choose|i: int| 0 <= i < self.free@.len() && self.free@[i] == x;
            assert(0 <= self.free@[i] < self.slots@.len());
        }
        lemma_len_subset(self.free_index_set(), range);
    }

    /// No slot leaks: once the free list has regained the whole capacity,
    /// every slot is back on it and no handle is live.
    pub proof fn lemma_full_free_list(&self)
        requires
            self.wf(),
            self.free_len() == self.capacity(),
        ensures
            forall|h: TrackingElementHandle| !self.live(h),
    {
        let range = set_int_range(0, self.slots@.len() as int);
        lemma_int_range(0, self.slots@.len() as int);
        self.free@.unique_seq_to_set();
        assert forall|x: int| self.free_index_set().contains(x) implies range.contains(x) by {
            let i = choose|i: int| 0 <= i < self.free@.len() && self.free@[i] == x;
            assert(0 <= self.free@[i] < self.slots@.len());
        }
        lemma_len_subset(self.free_index_set(), range);
        lemma_subset_equality(self.free_index_set(), range);
        assert forall|h: TrackingElementHandle| !self.live(h) by {
            if h.index < self.slots@.len() {
                assert(range.contains(h.index as int));
                assert(self.free_index_set().contains(h.index as int));
                let i = choose|i: int|
                    0 <= i < self.free@.len() && self.free@[i] == h.index as int;
                assert(self.slots@[self.free@[i]] is Free);
            }
        }
    }

}

impl<V> TrackingElement<V> {
    /// Popping the head of the free list and filling its slot with anything
    /// that is not a free link preserves the invariant.
    proof fn lemma_wf_after_pop(pre: Self, post: Self)
        requires
            pre.wf(),
            pre.free@.len() > 0,
            !((post.slots@[pre.free@[0]]) is Free),
            post.slots@ == pre.slots@.update(pre.free@[0], post.slots@[pre.free@[0]]),
            post.free@ == pre.free@.drop_first(),
            post.next == pre.next_after(0),
            post.slot_layout == pre.slot_layout,
        ensures
            post.wf(),
    {
        let of = pre.free@;
        let nf = post.free@;
        assert forall|i: int| 0 <= i < nf.len() implies #[trigger] nf[i] == of[i + 1] by {}
        assert(nf.no_duplicates());
        assert forall|i: int|
            0 <= i < nf.len() implies (#[trigger] post.slots@[nf[i]] matches Slot::Free { next }
            && next == post.next_after(i)) by {
            assert(of[i + 1] != of[0]);
            assert(post.slots@[nf[i]] == pre.slots@[of[i + 1]]);
        }
        assert forall|k: int|
            0 <= k < post.slots@.len() && (#[trigger] post.slots@[k]) is Free implies nf.contains(
            k,
        ) by {
            assert(pre.slots@[k] is Free);
            let j = choose|j: int| 0 <= j < of.len() && of[j] == k;
            assert(j != 0);
            assert(nf[j - 1] == k);
        }
    }

    /// Linking a slot that was not free back onto the head of the free list
    /// preserves the invariant.
    proof fn lemma_wf_after_push(pre: Self, post: Self, idx: usize)
        requires
            pre.wf(),
            idx < pre.slots@.len(),
            !((pre.slots@[idx as int]) is Free),
            post.slots@ == pre.slots@.update(idx as int, Slot::Free { next: pre.next }),
            post.free@ == seq![idx as int] + pre.free@,
            post.next == idx,
            post.slot_layout == pre.slot_layout,
        ensures
            post.wf(),
    {
        let of = pre.free@;
        let nf = post.free@;
        assert(nf[0] == idx as int);
        assert forall|i: int| 1 <= i < nf.len() implies #[trigger] nf[i] == of[i - 1] by {}
        assert forall|j: int| 0 <= j < of.len() implies of[j] != idx by {
            assert(pre.slots@[of[j]] is Free);
        }
        assert(nf.no_duplicates());
        assert forall|i: int|
            0 <= i < nf.len() implies (#[trigger] post.slots@[nf[i]] matches Slot::Free { next }
            && next == post.next_after(i)) by {
            if i == 0 {
                assert(post.slots@[idx as int] matches Slot::Free { next } && next == pre.next);
            } else {
                assert(nf[i] != idx);
                assert(post.slots@[nf[i]] == pre.slots@[of[i - 1]]);
            }
        }
        assert forall|k: int|
            0 <= k < post.slots@.len() && (#[trigger] post.slots@[k]) is Free implies nf.contains(
            k,
        ) by {
            if k == idx {
                assert(nf[0] == k);
            } else {
                assert(pre.slots@[k] is Free);
                let j = choose|j: int| 0 <= j < of.len() && of[j] == k;
                assert(nf[j + 1] == k);
            }
        }
    }
}

impl<V> ElementStorage<V> for TrackingElement<V> {
    type Handle = TrackingElementHandle;

    closed spec fn wf(&self) -> bool {
        &&& self.slot_layout.wf()
        &&& self.slots@.len() < usize::MAX
        &&& self.free@.no_duplicates()
        &&& forall|i: int|
            0 <= i < self.free@.len() ==> 0 <= #[trigger] self.free@[i] < self.slots@.len()
        &&& forall|i: int|
            0 <= i < self.free@.len() ==> (#[trigger] self.slots@[self.free@[i]] matches Slot::Free {
                next,
            } && next == self.next_after(i))
        &&& self.next == self.head_value()
        &&& forall|k: int|
            0 <= k < self.slots@.len() && (#[trigger] self.slots@[k]) is Free
                ==> self.free@.contains(k)
    }

    closed spec fn live(&self, h: TrackingElementHandle) -> bool {
        h.index < self.slots@.len() && !((self.slots@[h.index as int]) is Free)
    }

    closed spec fn full(&self, h: TrackingElementHandle) -> bool {
        h.index < self.slots@.len() && (self.slots@[h.index as int]) is Data
    }

    closed spec fn value_at(&self, h: TrackingElementHandle) -> V {
        self.slots@[h.index as int]->value
    }

    /// The shape must fit one slot and the free list must not be exhausted.
    open spec fn can_allocate(&self, layout: Layout) -> bool {
        layout.spec_fits(self.slot_shape()) && self.free_len() > 0
    }

    /// A failed operation leaves this backend exactly as it was.
    open spec fn after_failure(pre: Self, post: Self) -> bool {
        post == pre
    }

    /// Release pushes the slot onto the head of the free list and touches
    /// nothing else.
    open spec fn after_release(pre: Self, post: Self, h: TrackingElementHandle) -> bool {
        &&& post.capacity() == pre.capacity()
        &&& post.slot_shape() == pre.slot_shape()
        &&& post.free_len() == pre.free_len() + 1
        &&& post.free_head() == h.index
        &&& !post.live(h)
        &&& forall|h2: TrackingElementHandle|
            pre.live(h2) && h2.index != h.index ==> post.live(h2) && (pre.full(h2) ==> post.full(
                h2,
            ) && post.value_at(h2) == pre.value_at(h2))
    }

    fn allocate(&mut self, meta: usize, layout: Layout) -> (r: Result<
        TrackingElementHandle,
        AllocError,
    >)
        ensures
            r is Ok <==> (layout.spec_fits(old(self).slot_shape()) && old(self).free_len() > 0),
            final(self).capacity() == old(self).capacity(),
            final(self).slot_shape() == old(self).slot_shape(),
            r matches Ok(h) ==> final(self).free_len() == old(self).free_len() - 1
                && !old(self).live(h) && h.index < old(self).capacity()
                && h.index == old(self).free_head() && h.meta == meta,
            forall|h2: TrackingElementHandle|
                old(self).live(h2) ==> final(self).live(h2) && (old(self).full(h2)
                    ==> final(self).full(h2) && final(self).value_at(h2) == old(self).value_at(
                    h2,
                )),
    {
        if !layout.fits(&self.slot_layout) {
            return Err(AllocError);
        }
        if self.next == INVALID_NEXT {
            return Err(AllocError);
        }
        let idx = self.next;
        let nx = match &self.slots[idx] {
            Slot::Free { next } => *next,
            _ => unreached(),
        };
        self.next = nx;
        self.slots.push(Slot::Reserved);
        let popped = self.slots.swap_remove(idx);
        proof {
            assert(self.slots@ =~= old(self).slots@.update(idx as int, Slot::Reserved));
            self.free = Ghost(old(self).free@.drop_first());
            Self::lemma_wf_after_pop(*old(self), *self);
        }
        Ok(TrackingElementHandle { index: idx, meta })
    }

    fn create(&mut self, value: V, layout: Layout) -> (r: Result<TrackingElementHandle, V>)
        ensures
            r is Ok <==> (layout.spec_fits(old(self).slot_shape()) && old(self).free_len() > 0),
            final(self).capacity() == old(self).capacity(),
            final(self).slot_shape() == old(self).slot_shape(),
            r matches Ok(h) ==> final(self).free_len() == old(self).free_len() - 1
                && !old(self).live(h) && h.index < old(self).capacity()
                && h.index == old(self).free_head(),
            forall|h2: TrackingElementHandle|
                old(self).live(h2) ==> final(self).live(h2) && (old(self).full(h2)
                    ==> final(self).full(h2) && final(self).value_at(h2) == old(self).value_at(
                    h2,
                )),
    {
        if !layout.fits(&self.slot_layout) {
            return Err(value);
        }
        if self.next == INVALID_NEXT {
            return Err(value);
        }
        let idx = self.next;
        let nx = match &self.slots[idx] {
            Slot::Free { next } => *next,
            _ => unreached(),
        };
        self.next = nx;
        self.slots.push(Slot::Data { value });
        let popped = self.slots.swap_remove(idx);
        proof {
            assert(self.slots@ =~= old(self).slots@.update(idx as int, Slot::Data { value }));
            self.free = Ghost(old(self).free@.drop_first());
            Self::lemma_wf_after_pop(*old(self), *self);
        }
        Ok(TrackingElementHandle { index: idx, meta: 0 })
    }

    fn get(&self, h: TrackingElementHandle) -> (r: &V) {
        match &self.slots[h.index] {
            Slot::Data { value } => value,
            _ => unreached(),
        }
    }

    fn replace(&mut self, h: TrackingElementHandle, value: V) -> (r: V)
        ensures
            final(self).capacity() == old(self).capacity(),
            final(self).slot_shape() == old(self).slot_shape(),
            final(self).free_len() == old(self).free_len(),
            forall|h2: TrackingElementHandle|
                old(self).live(h2) && h2.index != h.index ==> final(self).live(h2) && (old(self).full(
                    h2,
                ) ==> final(self).full(h2) && final(self).value_at(h2) == old(self).value_at(h2)),
    {
        let idx = h.index;
        self.slots.push(Slot::Data { value });
        let popped = self.slots.swap_remove(idx);
        proof {
            assert(self.slots@ =~= old(self).slots@.update(idx as int, Slot::Data { value }));
            let of = self.free@;
            assert forall|j: int| 0 <= j < of.len() implies of[j] != idx by {
                assert(old(self).slots@[of[j]] is Free);
            }
            assert forall|i: int|
                0 <= i < of.len() implies (#[trigger] self.slots@[of[i]] matches Slot::Free { next }
                && next == self.next_after(i)) by {
                assert(self.slots@[of[i]] == old(self).slots@[of[i]]);
            }
        }
        match popped {
            Slot::Data { value } => value,
            _ => unreached(),
        }
    }

    fn take(&mut self, h: TrackingElementHandle) -> (r: V)
        ensures
            final(self).capacity() == old(self).capacity(),
            final(self).slot_shape() == old(self).slot_shape(),
            final(self).free_len() == old(self).free_len() + 1,
            final(self).free_len() > 0,
            final(self).free_head() == h.index,
            !final(self).live(h),
            forall|h2: TrackingElementHandle|
                old(self).live(h2) && h2.index != h.index ==> final(self).live(h2) && (old(self).full(
                    h2,
                ) ==> final(self).full(h2) && final(self).value_at(h2) == old(self).value_at(h2)),
    {
        let idx = h.index;
        self.slots.push(Slot::Free { next: self.next });
        let popped = self.slots.swap_remove(idx);
        self.next = idx;
        proof {
            assert(self.slots@ =~= old(self).slots@.update(
                idx as int,
                Slot::Free { next: old(self).next },
            ));
            self.free = Ghost(seq![idx as int] + old(self).free@);
            Self::lemma_wf_after_push(*old(self), *self, idx);
        }
        match popped {
            Slot::Data { value } => value,
            _ => unreached(),
        }
    }

    fn coerce(&self, h: TrackingElementHandle, meta: usize) -> (r: TrackingElementHandle)
        ensures
            r.index == h.index,
            r.meta == meta,
    {
        TrackingElementHandle { index: h.index, meta }
    }

    fn deallocate(&mut self, h: TrackingElementHandle)
        ensures
            final(self).capacity() == old(self).capacity(),
            final(self).slot_shape() == old(self).slot_shape(),
            final(self).free_len() == old(self).free_len() + 1,
            final(self).free_len() > 0,
            final(self).free_head() == h.index,
            !final(self).live(h),
            forall|h2: TrackingElementHandle|
                old(self).live(h2) && h2.index != h.index ==> final(self).live(h2) && (old(self).full(
                    h2,
                ) ==> final(self).full(h2) && final(self).value_at(h2) == old(self).value_at(h2)),
    {
        let idx = h.index;
        self.slots.push(Slot::Free { next: self.next });
        let dropped = self.slots.swap_remove(idx);
        self.next = idx;
        proof {
            assert(self.slots@ =~= old(self).slots@.update(
                idx as int,
                Slot::Free { next: old(self).next },
            ));
            self.free = Ghost(seq![idx as int] + old(self).free@);
            Self::lemma_wf_after_push(*old(self), *self, idx);
        }
    }
}

} // verus!
