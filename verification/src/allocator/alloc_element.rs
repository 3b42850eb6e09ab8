//! Storage delegating to a general-purpose allocator: the only backend with
//! unbounded capacity.

use vstd::prelude::*;

use crate::layout::{AllocError, Layout};
use crate::traits::{Allocator, ElementStorage, RangeStorage};

verus! {

/// One element block: the shape it was allocated with is recorded at
/// allocation, so releasing it hands the allocator exactly the shape of the
/// allocation — the correctness-critical invariant of this backend.
enum ElemCell<V> {
    Dead,
    Reserved { layout: Layout },
    Full { layout: Layout, value: V },
}

/// One range block: the element shape and the whole block's shape recorded at
/// allocation, and the slots themselves.
enum RangeCell<V> {
    Dead,
    Block { elem: Layout, total: Layout, data: Vec<Option<V>> },
}

/// Handle of the allocator-backed element storage.
#[derive(Clone, Copy, Debug)]
pub struct AllocElementHandle {
    pub index: usize,
    pub meta: usize,
}

/// Handle of the allocator-backed range storage. A handle of capacity zero is
/// the dangling sentinel: it carries no live allocation.
#[derive(Clone, Copy, Debug)]
pub struct AllocRangeHandle {
    pub index: usize,
    pub capacity: usize,
}

impl AllocRangeHandle {
    /// The number of slots the handle addresses.
    pub fn len(&self) -> (r: usize)
        ensures
            r == self.capacity,
    {
        self.capacity
    }
}

/// Generic allocator-backed storage: every block comes from the wrapped
/// allocator, and each is released with the exact shape it was allocated
/// with.
pub struct AllocStorage<A, V> {
    allocator: A,
    elements: Vec<ElemCell<V>>,
    ranges: Vec<RangeCell<V>>,
}

impl<V> ElemCell<V> {
    spec fn cell_wf(self) -> bool {
        match self {
            ElemCell::Dead => true,
            ElemCell::Reserved { layout } => layout.wf(),
            ElemCell::Full { layout, value } => layout.wf(),
        }
    }
}

impl<V> RangeCell<V> {
    spec fn cell_wf(self) -> bool {
        match self {
            RangeCell::Dead => true,
            RangeCell::Block { elem, total, data } => elem.wf() && total.wf() && elem.spec_array(
                data@.len() as int,
            ) == Some(total),
        }
    }
}

impl<A, V> AllocStorage<A, V> {
    /// Creates an instance delegating to `allocator`.
    pub fn new(allocator: A) -> (r: Self)
        ensures
            r.wf_storage(),
            r.spec_allocator() == allocator,
    {
        AllocStorage { allocator, elements: Vec::new(), ranges: Vec::new() }
    }

    /// The wrapped allocator.
    pub closed spec fn spec_allocator(&self) -> A {
        self.allocator
    }

    pub fn allocator(&self) -> (r: &A)
        ensures
            *r == self.spec_allocator(),
    {
        &self.allocator
    }

    /// Unwraps the storage back to its allocator.
    pub fn into_allocator(self) -> (r: A)
        ensures
            r == self.spec_allocator(),
    {
        self.allocator
    }

    /// Every recorded shape is meaningful, so a block is always released with
    /// the shape it was allocated with.
    pub closed spec fn wf_storage(&self) -> bool {
        &&& forall|k: int|
            0 <= k < self.elements@.len() ==> (#[trigger] self.elements@[k]).cell_wf()
        &&& forall|k: int| 0 <= k < self.ranges@.len() ==> (#[trigger] self.ranges@[k]).cell_wf()
    }

    /// The element handle refers to a block not yet released.
    pub closed spec fn elem_live(&self, h: AllocElementHandle) -> bool {
        h.index < self.elements@.len() && !((self.elements@[h.index as int]) is Dead)
    }

    /// The element block holds a value.
    pub closed spec fn elem_full(&self, h: AllocElementHandle) -> bool {
        h.index < self.elements@.len() && (self.elements@[h.index as int]) is Full
    }

    pub closed spec fn elem_value(&self, h: AllocElementHandle) -> V {
        self.elements@[h.index as int]->value
    }

    /// The range handle refers to a block not yet released, or is the
    /// zero-capacity sentinel.
    pub closed spec fn range_valid(&self, h: AllocRangeHandle) -> bool {
        ||| h.capacity == 0
        ||| (h.index < self.ranges@.len() && (self.ranges@[h.index as int] matches RangeCell::Block {
            elem,
            total,
            data,
        } && data@.len() == h.capacity))
    }

    pub closed spec fn range_shape(&self, h: AllocRangeHandle) -> Layout {
        if h.capacity == 0 {
            Layout { size: 0, align: 1 }
        } else {
            self.ranges@[h.index as int]->elem
        }
    }

    pub closed spec fn range_contents(&self, h: AllocRangeHandle) -> Seq<Option<V>> {
        if h.capacity == 0 {
            Seq::empty()
        } else {
            self.ranges@[h.index as int]->data@
        }
    }

    /// Every zero-capacity handle is the dangling sentinel: valid for this
    /// storage, empty, and free to release as a no-op.
    pub proof fn lemma_dangling_valid(&self, h: AllocRangeHandle)
        requires
            h.capacity == 0,
        ensures
            self.range_valid(h),
            self.range_contents(h) == Seq::<Option<V>>::empty(),
    {
    }
}

impl<A: Default, V> Default for AllocStorage<A, V> {
    fn default() -> (r: Self)
        ensures
            r.wf_storage(),
    {
        AllocStorage::new(A::default())
    }
}

impl<A: Allocator, V> AllocStorage<A, V> {
    /// Reserves one element block from the allocator, recording the shape the
    /// release must agree on.
    pub fn allocate_element(&mut self, meta: usize, layout: Layout) -> (r: Result<
        AllocElementHandle,
        AllocError,
    >)
        requires
            old(self).wf_storage(),
            layout.wf(),
        ensures
            final(self).wf_storage(),
            r is Err ==> *final(self) == *old(self),
            r is Ok <==> old(self).spec_allocator().grants(layout),
            r matches Ok(h) ==> final(self).elem_live(h) && !final(self).elem_full(h) && h.meta
                == meta,
            final(self).spec_allocator().counting() == old(self).spec_allocator().counting(),
            old(self).spec_allocator().counting() && r is Ok ==> final(self).spec_allocator().allocations() == old(self).spec_allocator().allocations() + 1
                && final(self).spec_allocator().deallocations() == old(self).spec_allocator().deallocations(),
            forall|h2: AllocElementHandle|
                old(self).elem_live(h2) ==> final(self).elem_live(h2) && (old(self).elem_full(h2)
                    ==> final(self).elem_full(h2) && final(self).elem_value(h2) == old(self).elem_value(h2)),
    {
        match self.allocator.allocate(layout) {
            Ok(u) => {
                let index = self.elements.len();
                self.elements.push(ElemCell::Reserved { layout });
                Ok(AllocElementHandle { index, meta })
            },
            Err(e) => Err(AllocError),
        }
    }

    /// Allocates one element block and stores `value` in it.
    pub fn create_element(&mut self, value: V, layout: Layout) -> (r: Result<
        AllocElementHandle,
        V,
    >)
        requires
            old(self).wf_storage(),
            layout.wf(),
        ensures
            final(self).wf_storage(),
            r matches Err(v) ==> v == value && *final(self) == *old(self),
            r is Ok <==> old(self).spec_allocator().grants(layout),
            r matches Ok(h) ==> final(self).elem_live(h) && final(self).elem_full(h) && final(self).elem_value(h) == value,
            final(self).spec_allocator().counting() == old(self).spec_allocator().counting(),
            old(self).spec_allocator().counting() && r is Ok ==> final(self).spec_allocator().allocations() == old(self).spec_allocator().allocations() + 1
                && final(self).spec_allocator().deallocations() == old(self).spec_allocator().deallocations(),
            forall|h2: AllocElementHandle|
                old(self).elem_live(h2) ==> final(self).elem_live(h2) && (old(self).elem_full(h2)
                    ==> final(self).elem_full(h2) && final(self).elem_value(h2) == old(self).elem_value(h2)),
    {
        match self.allocator.allocate(layout) {
            Ok(u) => {
                let index = self.elements.len();
                self.elements.push(ElemCell::Full { layout, value });
                Ok(AllocElementHandle { index, meta: 0 })
            },
            Err(e) => Err(value),
        }
    }

    /// Releases one element block, handing the allocator the shape recorded
    /// when the block was allocated.
    pub fn deallocate_element(&mut self, h: AllocElementHandle)
        requires
            old(self).wf_storage(),
            old(self).elem_live(h),
        ensures
            final(self).wf_storage(),
            !final(self).elem_live(h),
            forall|h2: AllocElementHandle|
                old(self).elem_live(h2) && h2.index != h.index ==> final(self).elem_live(h2) && (
                old(self).elem_full(h2) ==> final(self).elem_full(h2) && final(self).elem_value(h2)
                    == old(self).elem_value(h2)),
            final(self).spec_allocator().counting() == old(self).spec_allocator().counting(),
            old(self).spec_allocator().counting() ==> final(self).spec_allocator().deallocations()
                == old(self).spec_allocator().deallocations() + 1 && final(self).spec_allocator().allocations() == old(self).spec_allocator().allocations(),
    {
        let layout = match &self.elements[h.index] {
            ElemCell::Reserved { layout } => *layout,
            ElemCell::Full { layout, value } => *layout,
            ElemCell::Dead => unreached(),
        };
        self.allocator.deallocate(layout);
        self.elements.push(ElemCell::Dead);
        let dropped = self.elements.swap_remove(h.index);
        proof {
            assert(self.elements@ =~= old(self).elements@.update(h.index as int, ElemCell::Dead));
        }
    }

    /// Reserves a range block of exactly `capacity` slots. A capacity of zero
    /// yields the dangling sentinel without ever touching the underlying
    /// allocator.
    pub fn allocate_range(&mut self, capacity: usize, elem: Layout) -> (r: Result<
        AllocRangeHandle,
        AllocError,
    >)
        requires
            old(self).wf_storage(),
            elem.wf(),
        ensures
            final(self).wf_storage(),
            capacity == 0 ==> (r matches Ok(h) && h.capacity == 0 && *final(self) == *old(self)),
            r is Err ==> *final(self) == *old(self),
            r is Err <==> !(capacity == 0 || (elem.spec_array(capacity as int) matches Some(al)
                && old(self).spec_allocator().grants(al))),
            r matches Ok(h) ==> final(self).range_valid(h) && h.capacity == capacity && final(self).range_contents(h).len() == capacity && (capacity != 0 ==> final(self).range_shape(h)
                == elem) && (forall|i: int|
                0 <= i < capacity ==> final(self).range_contents(h)[i] is None),
            final(self).spec_allocator().counting() == old(self).spec_allocator().counting(),
            old(self).spec_allocator().counting() && r is Ok && capacity != 0 ==> final(self).spec_allocator().allocations() == old(self).spec_allocator().allocations() + 1
                && final(self).spec_allocator().deallocations() == old(self).spec_allocator().deallocations(),
            forall|h2: AllocRangeHandle|
                old(self).range_valid(h2) ==> final(self).range_valid(h2) && final(self).range_shape(h2) == old(self).range_shape(h2) && final(self).range_contents(h2)
                    == old(self).range_contents(h2),
    {
        if capacity == 0 {
            return Ok(AllocRangeHandle { index: 0, capacity: 0 });
        }
        let total = match elem.array(capacity) {
            Some(t) => t,
            None => {
                return Err(AllocError);
            },
        };
        match self.allocator.allocate(total) {
            Ok(u) => {
                let mut data: Vec<Option<V>> = Vec::new();
                let mut i: usize = 0;
                while i < capacity
                    invariant
                        i <= capacity,
                        data@.len() == i as int,
                        forall|j: int| 0 <= j < i ==> data@[j] is None,
                    decreases capacity - i,
                {
                    data.push(None);
                    i = i + 1;
                }
                let index = self.ranges.len();
                self.ranges.push(RangeCell::Block { elem, total, data });
                Ok(AllocRangeHandle { index, capacity })
            },
            Err(e) => Err(AllocError),
        }
    }

    /// Releases a range block with the shape recorded at allocation; on the
    /// zero-capacity sentinel this is a no-op that never reaches the
    /// allocator.
    pub fn deallocate_range(&mut self, h: AllocRangeHandle)
        requires
            old(self).wf_storage(),
            old(self).range_valid(h),
        ensures
            final(self).wf_storage(),
            h.capacity == 0 ==> *final(self) == *old(self),
            h.capacity != 0 ==> !final(self).range_valid(h),
            forall|h2: AllocRangeHandle|
                old(self).range_valid(h2) && h2.index != h.index ==> final(self).range_valid(h2)
                    && final(self).range_contents(h2) == old(self).range_contents(h2) && final(self).range_shape(h2) == old(self).range_shape(h2),
            final(self).spec_allocator().counting() == old(self).spec_allocator().counting(),
            old(self).spec_allocator().counting() && h.capacity != 0 ==> final(self).spec_allocator().deallocations() == old(self).spec_allocator().deallocations() + 1
                && final(self).spec_allocator().allocations() == old(self).spec_allocator().allocations(),
    {
        if h.capacity == 0 {
            return;
        }
        let total = match &self.ranges[h.index] {
            RangeCell::Block { elem, total, data } => *total,
            RangeCell::Dead => unreached(),
        };
        self.allocator.deallocate(total);
        self.ranges.push(RangeCell::Dead);
        let dropped = self.ranges.swap_remove(h.index);
        proof {
            assert(self.ranges@ =~= old(self).ranges@.update(h.index as int, RangeCell::Dead));
        }
    }
}

impl<A: Allocator, V> ElementStorage<V> for AllocStorage<A, V> {
    type Handle = AllocElementHandle;

    open spec fn wf(&self) -> bool {
        self.wf_storage()
    }

    open spec fn live(&self, h: AllocElementHandle) -> bool {
        self.elem_live(h)
    }

    open spec fn full(&self, h: AllocElementHandle) -> bool {
        self.elem_full(h)
    }

    open spec fn value_at(&self, h: AllocElementHandle) -> V {
        self.elem_value(h)
    }

    open spec fn can_allocate(&self, layout: Layout) -> bool {
        self.spec_allocator().grants(layout)
    }

    /// A failed request leaves this backend exactly as it was.
    open spec fn after_failure(pre: Self, post: Self) -> bool {
        post == pre
    }

    /// Release hands the block back to the allocator, with the shape recorded
    /// at allocation, and touches no other block.
    open spec fn after_release(pre: Self, post: Self, h: AllocElementHandle) -> bool {
        &&& post.wf_storage()
        &&& !post.elem_live(h)
        &&& forall|h2: AllocElementHandle|
            pre.elem_live(h2) && h2.index != h.index ==> post.elem_live(h2) && (pre.elem_full(h2)
                ==> post.elem_full(h2) && post.elem_value(h2) == pre.elem_value(h2))
        &&& post.spec_allocator().counting() == pre.spec_allocator().counting()
        &&& pre.spec_allocator().counting() ==> post.spec_allocator().deallocations()
            == pre.spec_allocator().deallocations() + 1 && post.spec_allocator().allocations()
            == pre.spec_allocator().allocations()
    }

    fn allocate(&mut self, meta: usize, layout: Layout) -> (r: Result<
        AllocElementHandle,
        AllocError,
    >) {
        self.allocate_element(meta, layout)
    }

    fn create(&mut self, value: V, layout: Layout) -> (r: Result<AllocElementHandle, V>)
        ensures
            r is Err ==> *final(self) == *old(self),
            r is Ok <==> old(self).spec_allocator().grants(layout),
            final(self).spec_allocator().counting() == old(self).spec_allocator().counting(),
            old(self).spec_allocator().counting() && r is Ok ==> final(self).spec_allocator().allocations() == old(self).spec_allocator().allocations() + 1
                && final(self).spec_allocator().deallocations() == old(self).spec_allocator().deallocations(),
            forall|h2: AllocElementHandle|
                old(self).elem_live(h2) ==> final(self).elem_live(h2) && (old(self).elem_full(h2)
                    ==> final(self).elem_full(h2) && final(self).elem_value(h2) == old(self).elem_value(h2)),
    {
        self.create_element(value, layout)
    }

    fn get(&self, h: AllocElementHandle) -> (r: &V) {
        match &self.elements[h.index] {
            ElemCell::Full { layout, value } => value,
            _ => unreached(),
        }
    }

    fn replace(&mut self, h: AllocElementHandle, value: V) -> (r: V)
        ensures
            final(self).spec_allocator() == old(self).spec_allocator(),
            forall|h2: AllocElementHandle|
                old(self).elem_live(h2) && h2.index != h.index ==> final(self).elem_live(h2) && (
                old(self).elem_full(h2) ==> final(self).elem_full(h2) && final(self).elem_value(h2)
                    == old(self).elem_value(h2)),
    {
        self.elements.push(ElemCell::Dead);
        let cell = self.elements.swap_remove(h.index);
        proof {
            assert(self.elements@ =~= old(self).elements@.update(h.index as int, ElemCell::Dead));
        }
        let (layout, previous) = match cell {
            ElemCell::Full { layout, value } => (layout, value),
            _ => unreached(),
        };
        self.elements.push(ElemCell::Full { layout, value });
        let swapped = self.elements.swap_remove(h.index);
        proof {
            assert(self.elements@ =~= old(self).elements@.update(
                h.index as int,
                self.elements@[h.index as int],
            ));
        }
        previous
    }

    fn take(&mut self, h: AllocElementHandle) -> (r: V)
        ensures
            !final(self).elem_live(h),
            final(self).spec_allocator().counting() == old(self).spec_allocator().counting(),
            old(self).spec_allocator().counting() ==> final(self).spec_allocator().deallocations()
                == old(self).spec_allocator().deallocations() + 1 && final(self).spec_allocator().allocations() == old(self).spec_allocator().allocations(),
            forall|h2: AllocElementHandle|
                old(self).elem_live(h2) && h2.index != h.index ==> final(self).elem_live(h2) && (
                old(self).elem_full(h2) ==> final(self).elem_full(h2) && final(self).elem_value(h2)
                    == old(self).elem_value(h2)),
    {
        self.elements.push(ElemCell::Dead);
        let cell = self.elements.swap_remove(h.index);
        proof {
            assert(self.elements@ =~= old(self).elements@.update(h.index as int, ElemCell::Dead));
        }
        let (layout, value) = match cell {
            ElemCell::Full { layout, value } => (layout, value),
            _ => unreached(),
        };
        self.allocator.deallocate(layout);
        value
    }

    fn coerce(&self, h: AllocElementHandle, meta: usize) -> (r: AllocElementHandle)
        ensures
            r.index == h.index,
            r.meta == meta,
    {
        AllocElementHandle { index: h.index, meta }
    }

    fn deallocate(&mut self, h: AllocElementHandle) {
        self.deallocate_element(h)
    }
}

impl<A: Allocator, V> RangeStorage<V> for AllocStorage<A, V> {
    type Handle = AllocRangeHandle;

    type Capacity = usize;

    open spec fn wf(&self) -> bool {
        self.wf_storage()
    }

    open spec fn valid(&self, h: AllocRangeHandle) -> bool {
        self.range_valid(h)
    }

    open spec fn cap_of(&self, h: AllocRangeHandle) -> int {
        h.capacity as int
    }

    open spec fn shape_of(&self, h: AllocRangeHandle) -> Layout {
        self.range_shape(h)
    }

    open spec fn contents(&self, h: AllocRangeHandle) -> Seq<Option<V>> {
        self.range_contents(h)
    }

    open spec fn can_allocate(&self, count: int, elem: Layout) -> bool {
        ||| count == 0
        ||| (elem.spec_array(count) matches Some(al) && self.spec_allocator().grants(al))
    }

    /// Growth succeeds exactly when the allocator grants the new block shape.
    open spec fn can_grow(&self, h: AllocRangeHandle, count: int, elem: Layout) -> bool {
        elem.spec_array(count) matches Some(al) && self.spec_allocator().grants(al)
    }

    /// Shrinking a live block succeeds exactly when the target is the
    /// sentinel or the allocator grants the new block shape.
    open spec fn can_shrink(&self, h: AllocRangeHandle, count: int, elem: Layout) -> bool {
        h.capacity != 0 && (count == 0 || (elem.spec_array(count) matches Some(al)
            && self.spec_allocator().grants(al)))
    }

    /// Release hands the block back to the allocator and touches no other
    /// block; on the zero-capacity sentinel nothing happens at all.
    open spec fn after_release(pre: Self, post: Self, h: AllocRangeHandle) -> bool {
        if h.capacity == 0 {
            post == pre
        } else {
            &&& post.wf_storage()
            &&& !post.range_valid(h)
            &&& forall|h2: AllocRangeHandle|
                pre.range_valid(h2) && h2.index != h.index ==> post.range_valid(h2)
                    && post.range_contents(h2) == pre.range_contents(h2) && post.range_shape(h2)
                    == pre.range_shape(h2)
            &&& post.spec_allocator().counting() == pre.spec_allocator().counting()
            &&& pre.spec_allocator().counting() ==> post.spec_allocator().deallocations()
                == pre.spec_allocator().deallocations() + 1 && post.spec_allocator().allocations()
                == pre.spec_allocator().allocations()
        }
    }

    /// The allocator is the only bound: any representable capacity may be
    /// asked for.
    open spec fn max_cap(&self, elem: Layout) -> int {
        usize::MAX as int
    }

    proof fn lemma_valid_contents(&self, h: AllocRangeHandle) {
    }

    fn maximum_capacity(&self, elem: Layout) -> (r: usize) {
        usize::MAX
    }

    fn allocate(&mut self, capacity: usize, elem: Layout) -> (r: Result<
        AllocRangeHandle,
        AllocError,
    >) {
        self.allocate_range(capacity, elem)
    }

    fn capacity_of(&self, h: AllocRangeHandle) -> (r: usize) {
        h.capacity
    }

    fn read(&self, h: AllocRangeHandle, i: usize) -> (r: &Option<V>) {
        match &self.ranges[h.index] {
            RangeCell::Block { elem, total, data } => &data[i],
            RangeCell::Dead => unreached(),
        }
    }

    fn write(&mut self, h: AllocRangeHandle, i: usize, value: Option<V>) -> (r: Option<V>)
        ensures
            final(self).spec_allocator() == old(self).spec_allocator(),
    {
        self.ranges.push(RangeCell::Dead);
        let cell = self.ranges.swap_remove(h.index);
        proof {
            assert(self.ranges@ =~= old(self).ranges@.update(h.index as int, RangeCell::Dead));
        }
        let (elem, total, mut data) = match cell {
            RangeCell::Block { elem, total, data } => (elem, total, data),
            RangeCell::Dead => unreached(),
        };
        data.push(value);
        let r = data.swap_remove(i);
        proof {
            assert(data@ =~= old(self).ranges@[h.index as int]->data@.update(i as int, value));
        }
        self.ranges.push(RangeCell::Block { elem, total, data });
        let swapped = self.ranges.swap_remove(h.index);
        proof {
            assert(self.ranges@ =~= old(self).ranges@.update(
                h.index as int,
                self.ranges@[h.index as int],
            ));
        }
        r
    }

    /// Growing from the zero-capacity sentinel is a fresh allocation;
    /// otherwise the block is resized in place by the allocator.
    fn try_grow(&mut self, h: AllocRangeHandle, new_capacity: usize, elem: Layout) -> (r: Result<
        AllocRangeHandle,
        AllocError,
    >)
        ensures
            r matches Ok(nh) ==> nh.capacity == new_capacity,
            final(self).spec_allocator().counting() == old(self).spec_allocator().counting(),
            old(self).spec_allocator().counting() && r is Ok && h.capacity == 0 ==> final(self).spec_allocator().allocations() == old(self).spec_allocator().allocations() + 1
                && final(self).spec_allocator().deallocations() == old(self).spec_allocator().deallocations(),
            old(self).spec_allocator().counting() && r is Ok && h.capacity != 0 ==> final(self).spec_allocator().allocations() == old(self).spec_allocator().allocations() + 1
                && final(self).spec_allocator().deallocations() == old(self).spec_allocator().deallocations() + 1,
    {
        if h.capacity == 0 {
            return self.allocate_range(new_capacity, elem);
        }
        let old_total = match &self.ranges[h.index] {
            RangeCell::Block { elem, total, data } => *total,
            RangeCell::Dead => unreached(),
        };
        let new_total = match elem.array(new_capacity) {
            Some(t) => t,
            None => {
                return Err(AllocError);
            },
        };
        proof {
            assert(elem.size * h.capacity <= elem.size * new_capacity) by (nonlinear_arith)
                requires
                    h.capacity <= new_capacity,
                    elem.size >= 0,
            ;
        }
        match self.allocator.grow(old_total, new_total) {
            Ok(u) => {
                self.ranges.push(RangeCell::Dead);
                let cell = self.ranges.swap_remove(h.index);
                let (stored_elem, stored_total, mut data) = match cell {
                    RangeCell::Block { elem, total, data } => (elem, total, data),
                    RangeCell::Dead => unreached(),
                };
                let ghost previous = data@;
                while data.len() < new_capacity
                    invariant
                        previous.len() <= data@.len() <= new_capacity,
                        forall|j: int| 0 <= j < previous.len() ==> data@[j] == previous[j],
                    decreases new_capacity - data.len(),
                {
                    data.push(None);
                }
                self.ranges.push(RangeCell::Block { elem, total: new_total, data });
                let swapped = self.ranges.swap_remove(h.index);
                proof {
                    assert(self.ranges@ =~= old(self).ranges@.update(
                        h.index as int,
                        self.ranges@[h.index as int],
                    ));
                }
                Ok(AllocRangeHandle { index: h.index, capacity: new_capacity })
            },
            Err(e) => Err(AllocError),
        }
    }

    /// Shrinking to capacity zero deallocates the block and yields the
    /// dangling sentinel; otherwise the block is resized in place.
    fn try_shrink(&mut self, h: AllocRangeHandle, new_capacity: usize, elem: Layout) -> (r: Result<
        AllocRangeHandle,
        AllocError,
    >)
        ensures
            r matches Ok(nh) ==> nh.capacity == new_capacity,
            final(self).spec_allocator().counting() == old(self).spec_allocator().counting(),
            old(self).spec_allocator().counting() && r is Ok && new_capacity == 0 ==> final(self).spec_allocator().deallocations() == old(self).spec_allocator().deallocations() + 1
                && final(self).spec_allocator().allocations() == old(self).spec_allocator().allocations(),
            old(self).spec_allocator().counting() && r is Ok && new_capacity != 0 ==> final(self).spec_allocator().allocations() == old(self).spec_allocator().allocations() + 1
                && final(self).spec_allocator().deallocations() == old(self).spec_allocator().deallocations() + 1,
    {
        if h.capacity == 0 {
            return Err(AllocError);
        }
        let old_total = match &self.ranges[h.index] {
            RangeCell::Block { elem, total, data } => *total,
            RangeCell::Dead => unreached(),
        };
        if new_capacity == 0 {
            self.allocator.deallocate(old_total);
            self.ranges.push(RangeCell::Dead);
            let dropped = self.ranges.swap_remove(h.index);
            proof {
                assert(self.ranges@ =~= old(self).ranges@.update(h.index as int, RangeCell::Dead));
            }
            return Ok(AllocRangeHandle { index: 0, capacity: 0 });
        }
        let new_total = match elem.array(new_capacity) {
            Some(t) => t,
            None => {
                return Err(AllocError);
            },
        };
        proof {
            assert(elem.size * new_capacity <= elem.size * h.capacity) by (nonlinear_arith)
                requires
                    new_capacity <= h.capacity,
                    elem.size >= 0,
            ;
        }
        match self.allocator.shrink(old_total, new_total) {
            Ok(u) => {
                self.ranges.push(RangeCell::Dead);
                let cell = self.ranges.swap_remove(h.index);
                let (stored_elem, stored_total, mut data) = match cell {
                    RangeCell::Block { elem, total, data } => (elem, total, data),
                    RangeCell::Dead => unreached(),
                };
                data.truncate(new_capacity);
                self.ranges.push(RangeCell::Block { elem, total: new_total, data });
                let swapped = self.ranges.swap_remove(h.index);
                proof {
                    assert(self.ranges@ =~= old(self).ranges@.update(
                        h.index as int,
                        self.ranges@[h.index as int],
                    ));
                }
                Ok(AllocRangeHandle { index: h.index, capacity: new_capacity })
            },
            Err(e) => Err(AllocError),
        }
    }

    fn deallocate(&mut self, h: AllocRangeHandle) {
        self.deallocate_range(h)
    }
}

} // verus!
