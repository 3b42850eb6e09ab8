//! Inline element storage without tracking: one slot, no occupancy marker.

use vstd::prelude::*;

use core::mem;

use crate::layout::{AllocError, Layout};
use crate::traits::ElementStorage;

verus! {

/// Handle of the non-tracking element storage: only the metadata captured at
/// allocation.
#[derive(Clone, Copy, Debug)]
pub struct NonTrackingElementHandle {
    pub meta: usize,
}

/// One embedded slot with no bookkeeping at all: `deallocate` does nothing,
/// the space is simply eligible for reuse by the next allocation, and the
/// one-value-at-a-time discipline is the caller's responsibility.
pub struct NonTrackingElement<V> {
    data: Option<V>,
    buffer: Layout,
}

impl<V> NonTrackingElement<V> {
    /// The shape of the embedded buffer.
    pub closed spec fn buffer(&self) -> Layout {
        self.buffer
    }

    /// Whether the slot currently holds a value.
    pub closed spec fn occupied(&self) -> bool {
        self.data is Some
    }

    /// Creates an instance whose slot has the given shape.
    pub fn new(buffer: Layout) -> (r: Self)
        requires
            buffer.wf(),
        ensures
            r.wf(),
            r.buffer() == buffer,
            !r.occupied(),
    {
        NonTrackingElement { data: None, buffer }
    }
}

impl<V> ElementStorage<V> for NonTrackingElement<V> {
    type Handle = NonTrackingElementHandle;

    closed spec fn wf(&self) -> bool {
        self.buffer.wf()
    }

    closed spec fn live(&self, h: NonTrackingElementHandle) -> bool {
        true
    }

    closed spec fn full(&self, h: NonTrackingElementHandle) -> bool {
        self.data is Some
    }

    closed spec fn value_at(&self, h: NonTrackingElementHandle) -> V {
        self.data->0
    }

    /// The shape must fit the embedded buffer; with a single slot there is no
    /// occupancy to check.
    open spec fn can_allocate(&self, layout: Layout) -> bool {
        layout.spec_fits(self.buffer())
    }

    /// A failed operation leaves this backend exactly as it was.
    open spec fn after_failure(pre: Self, post: Self) -> bool {
        post == pre
    }

    /// Release is a no-op: the slot is merely eligible for reuse.
    open spec fn after_release(pre: Self, post: Self, h: Self::Handle) -> bool {
        post == pre
    }

    fn allocate(&mut self, meta: usize, layout: Layout) -> (r: Result<
        NonTrackingElementHandle,
        AllocError,
    >)
        ensures
            *final(self) == *old(self),
            r is Ok <==> layout.spec_fits(old(self).buffer()),
            r matches Ok(h) ==> h.meta == meta,
    {
        if layout.fits(&self.buffer) {
            Ok(NonTrackingElementHandle { meta })
        } else {
            Err(AllocError)
        }
    }

    fn create(&mut self, value: V, layout: Layout) -> (r: Result<NonTrackingElementHandle, V>)
        ensures
            r is Ok <==> layout.spec_fits(old(self).buffer()),
            r is Ok ==> final(self).occupied(),
            final(self).buffer() == old(self).buffer(),
    {
        if layout.fits(&self.buffer) {
            self.data = Some(value);
            Ok(NonTrackingElementHandle { meta: 0 })
        } else {
            Err(value)
        }
    }

    fn get(&self, h: NonTrackingElementHandle) -> (r: &V) {
        match &self.data {
            Some(v) => v,
            None => unreached(),
        }
    }

    fn replace(&mut self, h: NonTrackingElementHandle, value: V) -> (r: V)
        ensures
            final(self).buffer() == old(self).buffer(),
    {
        let mut slot = Some(value);
        mem::swap(&mut self.data, &mut slot);
        match slot {
            Some(v) => v,
            None => unreached(),
        }
    }

    fn take(&mut self, h: NonTrackingElementHandle) -> (r: V)
        ensures
            final(self).buffer() == old(self).buffer(),
            !final(self).occupied(),
    {
        let mut slot = None;
        mem::swap(&mut self.data, &mut slot);
        match slot {
            Some(v) => v,
            None => unreached(),
        }
    }

    fn coerce(&self, h: NonTrackingElementHandle, meta: usize) -> (r: NonTrackingElementHandle)
        ensures
            r.meta == meta,
    {
        NonTrackingElementHandle { meta }
    }

    fn deallocate(&mut self, h: NonTrackingElementHandle)
        ensures
            *final(self) == *old(self),
    {
    }
}

} // verus!
