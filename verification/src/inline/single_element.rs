//! Inline element storage with exactly one slot and no bookkeeping.

use vstd::prelude::*;

use core::mem;

use crate::layout::{AllocError, Layout};
use crate::traits::ElementStorage;

verus! {

/// One embedded slot, sized and aligned by the shape chosen at construction.
///
/// There is no occupancy marker: with a single slot, correctness relies on
/// the caller following the one-value-at-a-time discipline, and `deallocate`
/// is a no-op that merely leaves the slot eligible for reuse.
pub struct SingleElement<V> {
    data: Option<V>,
    buffer: Layout,
}

/// Handle of the inline single-element storage: only the metadata captured at
/// allocation, since there is a single place the value can be.
#[derive(Clone, Copy, Debug)]
pub struct SingleElementHandle {
    pub meta: usize,
}

impl<V> SingleElement<V> {
    /// The shape of the embedded buffer.
    pub closed spec fn buffer(&self) -> Layout {
        self.buffer
    }

    /// Whether the slot currently holds a value.
    pub closed spec fn occupied(&self) -> bool {
        self.data is Some
    }

    /// Creates an instance whose slot has the given shape.
    pub fn new(buffer: Layout) -> (r: Self)
        requires
            buffer.wf(),
        ensures
            r.wf(),
            r.buffer() == buffer,
            !r.occupied(),
    {
        SingleElement { data: None, buffer }
    }
}

impl<V> ElementStorage<V> for SingleElement<V> {
    type Handle = SingleElementHandle;

    closed spec fn wf(&self) -> bool {
        self.buffer.wf()
    }

    /// Every handle addresses the one slot; a stale handle is the caller's
    /// responsibility, exactly as with raw storage.
    closed spec fn live(&self, h: SingleElementHandle) -> bool {
        true
    }

    closed spec fn full(&self, h: SingleElementHandle) -> bool {
        self.data is Some
    }

    closed spec fn value_at(&self, h: SingleElementHandle) -> V {
        self.data->0
    }

    /// The shape must fit the embedded buffer; with a single slot there is no
    /// occupancy to check.
    open spec fn can_allocate(&self, layout: Layout) -> bool {
        layout.spec_fits(self.buffer())
    }

    /// A failed operation leaves this backend exactly as it was.
    open spec fn after_failure(pre: Self, post: Self) -> bool {
        post == pre
    }

    /// Release is a no-op: the slot is merely eligible for reuse.
    open spec fn after_release(pre: Self, post: Self, h: Self::Handle) -> bool {
        post == pre
    }

    fn allocate(&mut self, meta: usize, layout: Layout) -> (r: Result<
        SingleElementHandle,
        AllocError,
    >)
        ensures
            r is Err ==> *final(self) == *old(self),
            r is Ok ==> *final(self) == *old(self),
            r is Ok <==> layout.spec_fits(old(self).buffer()),
            r matches Ok(h) ==> h.meta == meta,
    {
        if layout.fits(&self.buffer) {
            Ok(SingleElementHandle { meta })
        } else {
            Err(AllocError)
        }
    }

    fn create(&mut self, value: V, layout: Layout) -> (r: Result<SingleElementHandle, V>)
        ensures
            r is Ok <==> layout.spec_fits(old(self).buffer()),
            r is Ok ==> final(self).occupied(),
            final(self).buffer() == old(self).buffer(),
    {
        if layout.fits(&self.buffer) {
            self.data = Some(value);
            Ok(SingleElementHandle { meta: 0 })
        } else {
            Err(value)
        }
    }

    fn get(&self, h: SingleElementHandle) -> (r: &V) {
        match &self.data {
            Some(v) => v,
            None => unreached(),
        }
    }

    fn replace(&mut self, h: SingleElementHandle, value: V) -> (r: V)
        ensures
            final(self).buffer() == old(self).buffer(),
    {
        let mut slot = Some(value);
        mem::swap(&mut self.data, &mut slot);
        match slot {
            Some(v) => v,
            None => unreached(),
        }
    }

    fn take(&mut self, h: SingleElementHandle) -> (r: V)
        ensures
            final(self).buffer() == old(self).buffer(),
            !final(self).occupied(),
    {
        let mut slot = None;
        mem::swap(&mut self.data, &mut slot);
        match slot {
            Some(v) => v,
            None => unreached(),
        }
    }

    fn coerce(&self, h: SingleElementHandle, meta: usize) -> (r: SingleElementHandle)
        ensures
            r.meta == meta,
    {
        SingleElementHandle { meta }
    }

    fn deallocate(&mut self, h: SingleElementHandle)
        ensures
            *final(self) == *old(self),
    {
    }
}

} // verus!
