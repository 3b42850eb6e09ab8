//! The capability contracts every backend implements: element storage for a
//! single value, range storage for a resizable buffer, the capacity
//! abstraction, and the allocator collaborator the allocator-backed storage
//! wraps.

use vstd::prelude::*;

use crate::layout::{AllocError, Layout};

verus! {

/// An integer-like count of elements for range storages. Backends may choose
/// different concrete widths; a capacity converts to and from the universal
/// unsigned size and is bounded by a maximum.
pub trait Capacity: Sized + Copy {
    /// The count this capacity stands for.
    spec fn as_int(self) -> int;

    /// The largest count this capacity type can represent.
    spec fn spec_max() -> int;

    /// Every capacity lies between zero and the maximum, and the maximum is
    /// representable as a universal size.
    proof fn lemma_bounds(self)
        ensures
            0 <= self.as_int() <= Self::spec_max(),
            Self::spec_max() <= usize::MAX,
    ;

    fn into_usize(self) -> (r: usize)
        ensures
            r as int == self.as_int(),
    ;

    /// Converts from the universal size, `None` when the count does not fit.
    fn from_usize(n: usize) -> (r: Option<Self>)
        ensures
            n as int <= Self::spec_max() ==> (r matches Some(c) && c.as_int() == n as int),
            n as int > Self::spec_max() ==> r is None,
    ;

    fn max() -> (r: Self)
        ensures
            r.as_int() == Self::spec_max(),
    ;
}

impl Capacity for u8 {
    open spec fn as_int(self) -> int {
        self as int
    }

    open spec fn spec_max() -> int {
        u8::MAX as int
    }

    proof fn lemma_bounds(self) {
    }

    fn into_usize(self) -> usize {
        self as usize
    }

    fn from_usize(n: usize) -> Option<u8> {
        if n <= u8::MAX as usize {
            Some(n as u8)
        } else {
            None
        }
    }

    fn max() -> u8 {
        u8::MAX
    }
}

impl Capacity for u16 {
    open spec fn as_int(self) -> int {
        self as int
    }

    open spec fn spec_max() -> int {
        u16::MAX as int
    }

    proof fn lemma_bounds(self) {
    }

    fn into_usize(self) -> usize {
        self as usize
    }

    fn from_usize(n: usize) -> Option<u16> {
        if n <= u16::MAX as usize {
            Some(n as u16)
        } else {
            None
        }
    }

    fn max() -> u16 {
        u16::MAX
    }
}

impl Capacity for u32 {
    open spec fn as_int(self) -> int {
        self as int
    }

    open spec fn spec_max() -> int {
        u32::MAX as int
    }

    proof fn lemma_bounds(self) {
    }

    fn into_usize(self) -> usize {
        self as usize
    }

    fn from_usize(n: usize) -> Option<u32> {
        if n <= u32::MAX as usize {
            Some(n as u32)
        } else {
            None
        }
    }

    fn max() -> u32 {
        u32::MAX
    }
}

impl Capacity for usize {
    open spec fn as_int(self) -> int {
        self as int
    }

    open spec fn spec_max() -> int {
        usize::MAX as int
    }

    proof fn lemma_bounds(self) {
    }

    fn into_usize(self) -> usize {
        self
    }

    fn from_usize(n: usize) -> Option<usize> {
        Some(n)
    }

    fn max() -> usize {
        usize::MAX
    }
}

/// A general-purpose allocator, the collaborator the allocator-backed storage
/// delegates to. The storage itself keeps the slots a block stands for; the
/// allocator decides whether a request is granted and accounts for the blocks
/// handed out, so a caller can observe that an operation never touched it.
pub trait Allocator: Sized {
    /// Whether a request of this shape would be granted now.
    spec fn grants(&self, layout: Layout) -> bool;

    /// Whether this allocator keeps an account of the blocks it handed out
    /// and took back; the counting clauses below bind only such allocators.
    spec fn counting(&self) -> bool;

    /// Blocks handed out so far, when this allocator counts.
    spec fn allocations(&self) -> int;

    /// Blocks taken back so far, when this allocator counts. A resize in
    /// place counts on both sides: one block is given up, one is obtained.
    spec fn deallocations(&self) -> int;

    fn allocate(&mut self, layout: Layout) -> (r: Result<(), AllocError>)
        requires
            layout.wf(),
        ensures
            r is Ok <==> old(self).grants(layout),
            r is Err ==> *final(self) == *old(self),
            final(self).counting() == old(self).counting(),
            old(self).counting() && r is Ok ==> final(self).allocations() == old(
                self,
            ).allocations() + 1 && final(self).deallocations() == old(self).deallocations(),
    ;

    /// Returns a block. The shape must be the one the block was allocated
    /// with; the storages guarantee that by recording it at allocation.
    fn deallocate(&mut self, layout: Layout)
        requires
            layout.wf(),
        ensures
            final(self).counting() == old(self).counting(),
            old(self).counting() ==> final(self).deallocations() == old(self).deallocations() + 1
                && final(self).allocations() == old(self).allocations(),
    ;

    /// Resizes a block in place to a larger shape.
    fn grow(&mut self, old_layout: Layout, new_layout: Layout) -> (r: Result<(), AllocError>)
        requires
            old_layout.wf(),
            new_layout.wf(),
            old_layout.size <= new_layout.size,
        ensures
            r is Ok <==> old(self).grants(new_layout),
            r is Err ==> *final(self) == *old(self),
            final(self).counting() == old(self).counting(),
            old(self).counting() && r is Ok ==> final(self).allocations() == old(
                self,
            ).allocations() + 1 && final(self).deallocations() == old(self).deallocations() + 1,
    ;

    /// Resizes a block in place to a smaller shape.
    fn shrink(&mut self, old_layout: Layout, new_layout: Layout) -> (r: Result<(), AllocError>)
        requires
            old_layout.wf(),
            new_layout.wf(),
            new_layout.size <= old_layout.size,
        ensures
            r is Ok <==> old(self).grants(new_layout),
            r is Err ==> *final(self) == *old(self),
            final(self).counting() == old(self).counting(),
            old(self).counting() && r is Ok ==> final(self).allocations() == old(
                self,
            ).allocations() + 1 && final(self).deallocations() == old(self).deallocations() + 1,
    ;
}

/// Storage for single values of type `V`, addressed through opaque handles.
///
/// A handle is valid only for the storage that produced it and only until
/// that storage releases or invalidates it; the contracts below speak of
/// valid handles through `live` (the slot is allocated) and `full` (the slot
/// holds a value).
pub trait ElementStorage<V>: Sized {
    type Handle: Copy;

    spec fn wf(&self) -> bool;

    /// The handle refers to a slot this storage has allocated and not yet
    /// released.
    spec fn live(&self, h: Self::Handle) -> bool;

    /// The slot holds a value, not merely reserved space.
    spec fn full(&self, h: Self::Handle) -> bool;

    /// The value a full handle refers to.
    spec fn value_at(&self, h: Self::Handle) -> V;

    /// Whether an allocation of this shape would succeed now: space is
    /// available and the shape is one this backend accepts.
    spec fn can_allocate(&self, layout: Layout) -> bool;

    /// How a failed allocation leaves the storage. Every plain backend and
    /// the fallback composite leave it exactly as it was; the alternative
    /// composite commits its one-shot switch to the second backend even when
    /// the retry there fails too.
    spec fn after_failure(pre: Self, post: Self) -> bool;

    /// How releasing the slot behind `h` leaves the storage. For the
    /// single-slot backends release is a no-op and the relation is equality;
    /// for the tracking backend the slot goes back on the free list; for the
    /// allocator-backed one the block returns to the allocator; a composite
    /// releases on the owning side and leaves the other untouched.
    spec fn after_release(pre: Self, post: Self, h: Self::Handle) -> bool;

    /// Reserves space for one value whose shape is `layout`, without storing
    /// anything. `meta` is the opaque metadata of the value's type, captured
    /// at creation and handed back with the handle.
    fn allocate(&mut self, meta: usize, layout: Layout) -> (r: Result<Self::Handle, AllocError>)
        requires
            old(self).wf(),
            layout.wf(),
        ensures
            final(self).wf(),
            r matches Ok(h) ==> old(self).can_allocate(layout) && final(self).live(h),
            r is Err ==> !old(self).can_allocate(layout) && Self::after_failure(
                *old(self),
                *final(self),
            ),
    ;

    /// Allocates and immediately stores `value`; on failure the value comes
    /// back unchanged, rather than an error code, so the caller can retry
    /// elsewhere, and the storage is left as `after_failure` says — for every
    /// plain backend, exactly as before the attempt.
    fn create(&mut self, value: V, layout: Layout) -> (r: Result<Self::Handle, V>)
        requires
            old(self).wf(),
            layout.wf(),
        ensures
            final(self).wf(),
            r matches Ok(h) ==> old(self).can_allocate(layout) && final(self).live(h)
                && final(self).full(h) && final(self).value_at(h) == value,
            r matches Err(v) ==> v == value && !old(self).can_allocate(layout)
                && Self::after_failure(*old(self), *final(self)),
    ;

    /// A view of the stored value; valid only while the handle remains valid.
    fn get(&self, h: Self::Handle) -> (r: &V)
        requires
            self.wf(),
            self.full(h),
        ensures
            *r == self.value_at(h),
    ;

    /// Replaces the stored value through the handle and hands back the one it
    /// held: writing through the view a handle gives.
    fn replace(&mut self, h: Self::Handle, value: V) -> (r: V)
        requires
            old(self).wf(),
            old(self).full(h),
        ensures
            final(self).wf(),
            final(self).live(h),
            final(self).full(h),
            final(self).value_at(h) == value,
            r == old(self).value_at(h),
    ;

    /// Moves the stored value out and releases the slot: what a caller of the
    /// raw interface does by copying through the view and then deallocating.
    fn take(&mut self, h: Self::Handle) -> (r: V)
        requires
            old(self).wf(),
            old(self).full(h),
        ensures
            final(self).wf(),
            r == old(self).value_at(h),
    ;

    /// Reinterprets a handle as one for a compatible supertype whose metadata
    /// is `meta`: same slot, same bytes, only the metadata changes.
    fn coerce(&self, h: Self::Handle, meta: usize) -> (r: Self::Handle)
        requires
            self.wf(),
            self.live(h),
        ensures
            self.live(r),
            self.full(h) ==> self.full(r) && self.value_at(r) == self.value_at(h),
    ;

    /// Releases the slot. No destructor runs beyond the value being dropped
    /// by the storage that owned it.
    fn deallocate(&mut self, h: Self::Handle)
        requires
            old(self).wf(),
            old(self).live(h),
        ensures
            final(self).wf(),
            Self::after_release(*old(self), *final(self), h),
    ;

    /// Releases the slot of a stored value.
    fn destroy(&mut self, h: Self::Handle)
        requires
            old(self).wf(),
            old(self).live(h),
        ensures
            final(self).wf(),
            Self::after_release(*old(self), *final(self), h),
    {
        self.deallocate(h);
    }
}

/// Storage for a resizable buffer of values of type `V`.
///
/// A handle of capacity zero carries no live allocation: it is a sentinel
/// that is always safe to deallocate as a no-op.
pub trait RangeStorage<V>: Sized {
    type Handle: Copy;

    type Capacity: Capacity;

    spec fn wf(&self) -> bool;

    /// The handle refers to a buffer this storage has allocated and not yet
    /// released, or is the zero-capacity sentinel.
    spec fn valid(&self, h: Self::Handle) -> bool;

    /// The number of slots the handle addresses.
    spec fn cap_of(&self, h: Self::Handle) -> int;

    /// The element shape the handle was allocated with.
    spec fn shape_of(&self, h: Self::Handle) -> Layout;

    /// The slots the handle addresses; `None` marks a slot never written.
    spec fn contents(&self, h: Self::Handle) -> Seq<Option<V>>;

    /// Whether an allocation of `count` slots of shape `elem` would succeed
    /// now.
    spec fn can_allocate(&self, count: int, elem: Layout) -> bool;

    /// Whether growing the buffer behind `h` to `count` slots of shape `elem`
    /// would succeed now.
    spec fn can_grow(&self, h: Self::Handle, count: int, elem: Layout) -> bool;

    /// Whether shrinking the buffer behind `h` to `count` slots of shape
    /// `elem` would succeed now.
    spec fn can_shrink(&self, h: Self::Handle, count: int, elem: Layout) -> bool;

    /// How releasing the buffer behind `h` leaves the storage: equality for
    /// the fixed inline array and for the zero-capacity sentinel, the block
    /// returned to the allocator for the allocator-backed backend, and the
    /// owning side released for a composite.
    spec fn after_release(pre: Self, post: Self, h: Self::Handle) -> bool;

    /// The largest capacity this backend could ever satisfy for elements of
    /// shape `elem`; composites use it to reason about routing, it is no
    /// guarantee of success.
    spec fn max_cap(&self, elem: Layout) -> int;

    /// A valid handle addresses as many slots as its capacity says.
    proof fn lemma_valid_contents(&self, h: Self::Handle)
        requires
            self.wf(),
            self.valid(h),
        ensures
            self.contents(h).len() == self.cap_of(h),
            self.cap_of(h) >= 0,
    ;

    fn maximum_capacity(&self, elem: Layout) -> (r: Self::Capacity)
        requires
            self.wf(),
            elem.wf(),
            elem.size >= 1,
        ensures
            r.as_int() == self.max_cap(elem),
    ;

    /// Reserves a buffer of at least `capacity` slots of shape `elem`; the
    /// handle may address more than was asked for. No slot is initialized.
    fn allocate(&mut self, capacity: Self::Capacity, elem: Layout) -> (r: Result<
        Self::Handle,
        AllocError,
    >)
        requires
            old(self).wf(),
            elem.wf(),
        ensures
            final(self).wf(),
            r matches Ok(h) ==> old(self).can_allocate(capacity.as_int(), elem)
                && final(self).valid(h)
                && final(self).cap_of(h) >= capacity.as_int()
                && (final(self).cap_of(h) != 0 ==> final(self).shape_of(h) == elem)
                && final(self).contents(h).len() == final(self).cap_of(h)
                && (forall|i: int| 0 <= i < final(self).cap_of(h)
                    ==> final(self).contents(h)[i] is None),
            r is Err ==> !old(self).can_allocate(capacity.as_int(), elem)
                && *final(self) == *old(self),
    ;

    /// The number of slots the handle addresses, as a universal size.
    fn capacity_of(&self, h: Self::Handle) -> (r: usize)
        requires
            self.wf(),
            self.valid(h),
        ensures
            r as int == self.cap_of(h),
    ;

    /// Reads one slot of the buffer.
    fn read(&self, h: Self::Handle, i: usize) -> (r: &Option<V>)
        requires
            self.wf(),
            self.valid(h),
            i < self.cap_of(h),
        ensures
            *r == self.contents(h)[i as int],
    ;

    /// Writes one slot of the buffer and hands back what it held.
    fn write(&mut self, h: Self::Handle, i: usize, value: Option<V>) -> (r: Option<V>)
        requires
            old(self).wf(),
            old(self).valid(h),
            i < old(self).cap_of(h),
        ensures
            final(self).wf(),
            final(self).valid(h),
            final(self).cap_of(h) == old(self).cap_of(h),
            final(self).shape_of(h) == old(self).shape_of(h),
            final(self).contents(h) == old(self).contents(h).update(i as int, value),
            r == old(self).contents(h)[i as int],
    ;

    /// Grows the buffer to `new_capacity` slots, strictly more than it has;
    /// on success the old handle is invalidated and the slots the old and the
    /// new buffer share keep their contents.
    fn try_grow(&mut self, h: Self::Handle, new_capacity: Self::Capacity, elem: Layout) -> (r:
        Result<Self::Handle, AllocError>)
        requires
            old(self).wf(),
            old(self).valid(h),
            elem.wf(),
            new_capacity.as_int() > old(self).cap_of(h),
            old(self).cap_of(h) != 0 ==> elem == old(self).shape_of(h),
        ensures
            final(self).wf(),
            r is Ok <==> old(self).can_grow(h, new_capacity.as_int(), elem),
            r matches Ok(nh) ==> final(self).valid(nh)
                && final(self).cap_of(nh) >= new_capacity.as_int()
                && (final(self).cap_of(nh) != 0 ==> final(self).shape_of(nh) == elem)
                && final(self).contents(nh).len() == final(self).cap_of(nh)
                && (forall|i: int| 0 <= i < old(self).cap_of(h)
                    ==> final(self).contents(nh)[i] == old(self).contents(h)[i]),
            r is Err ==> *final(self) == *old(self),
    ;

    /// Shrinks the buffer to `new_capacity` slots, strictly fewer than it
    /// has; on success the old handle is invalidated and the slots kept
    /// preserve their contents.
    fn try_shrink(&mut self, h: Self::Handle, new_capacity: Self::Capacity, elem: Layout) -> (r:
        Result<Self::Handle, AllocError>)
        requires
            old(self).wf(),
            old(self).valid(h),
            elem.wf(),
            new_capacity.as_int() < old(self).cap_of(h),
            old(self).cap_of(h) != 0 ==> elem == old(self).shape_of(h),
        ensures
            final(self).wf(),
            r is Ok <==> old(self).can_shrink(h, new_capacity.as_int(), elem),
            r matches Ok(nh) ==> final(self).valid(nh)
                && final(self).cap_of(nh) >= new_capacity.as_int()
                && (final(self).cap_of(nh) != 0 ==> final(self).shape_of(nh) == elem)
                && final(self).contents(nh).len() == final(self).cap_of(nh)
                && (forall|i: int| 0 <= i < new_capacity.as_int()
                    ==> final(self).contents(nh)[i] == old(self).contents(h)[i]),
            r is Err ==> *final(self) == *old(self),
    ;

    /// Releases the buffer; on a zero-capacity handle this is a no-op.
    fn deallocate(&mut self, h: Self::Handle)
        requires
            old(self).wf(),
            old(self).valid(h),
        ensures
            final(self).wf(),
            old(self).cap_of(h) == 0 ==> *final(self) == *old(self),
            Self::after_release(*old(self), *final(self), h),
    ;
}

/// Storing a value and reading it back through the returned handle yields
/// that value, on every element storage, for every value whose shape the
/// backend can serve now.
pub fn create_get_round_trip<V, E: ElementStorage<V>>(
    storage: &mut E,
    value: V,
    layout: Layout,
) -> (r: &V)
    requires
        old(storage).wf(),
        layout.wf(),
        old(storage).can_allocate(layout),
    ensures
        *r == value,
{
    match storage.create(value, layout) {
        Ok(h) => storage.get(h),
        Err(v) => unreached(),
    }
}

/// A `create` that fails loses nothing: every element storage hands the exact
/// value back whenever it cannot serve the shape.
pub fn failed_create_round_trip<V, E: ElementStorage<V>>(
    storage: &mut E,
    value: V,
    layout: Layout,
) -> (r: V)
    requires
        old(storage).wf(),
        layout.wf(),
        !old(storage).can_allocate(layout),
    ensures
        r == value,
{
    match storage.create(value, layout) {
        Err(v) => v,
        Ok(h) => unreached(),
    }
}

} // verus!
