//! Allocator collaborators used with the allocator-backed storage: one that
//! refuses every request, and one that grants every request while counting
//! the blocks handed out and taken back.

use vstd::prelude::*;

use crate::layout::{AllocError, Layout};
use crate::traits::Allocator;

verus! {

/// An allocator that grants nothing: every request fails and nothing is ever
/// handed out.
#[derive(Clone, Copy, Default, Debug)]
pub struct NonAllocator;

impl Allocator for NonAllocator {
    open spec fn grants(&self, layout: Layout) -> bool {
        false
    }

    /// Nothing is ever handed out, so there is nothing to count.
    open spec fn counting(&self) -> bool {
        false
    }

    open spec fn allocations(&self) -> int {
        0
    }

    open spec fn deallocations(&self) -> int {
        0
    }

    fn allocate(&mut self, layout: Layout) -> (r: Result<(), AllocError>) {
        Err(AllocError)
    }

    fn deallocate(&mut self, layout: Layout) {
    }

    fn grow(&mut self, old_layout: Layout, new_layout: Layout) -> (r: Result<(), AllocError>) {
        Err(AllocError)
    }

    fn shrink(&mut self, old_layout: Layout, new_layout: Layout) -> (r: Result<(), AllocError>) {
        Err(AllocError)
    }
}

/// An allocator that grants every request and counts the blocks handed out
/// and taken back, so a caller can observe exactly which operations reached
/// it. The account carried in contracts is exact; the runtime counters a test
/// reads stop at their maximum rather than wrap.
#[derive(Clone)]
pub struct SpyAllocator {
    allocated: u64,
    deallocated: u64,
    lent: Ghost<int>,
    reclaimed: Ghost<int>,
}

impl SpyAllocator {
    pub closed spec fn spec_allocated(&self) -> u64 {
        self.allocated
    }

    pub closed spec fn spec_deallocated(&self) -> u64 {
        self.deallocated
    }

    pub fn new() -> (r: SpyAllocator)
        ensures
            r.spec_allocated() == 0,
            r.spec_deallocated() == 0,
            r.allocations() == 0,
            r.deallocations() == 0,
    {
        SpyAllocator { allocated: 0, deallocated: 0, lent: Ghost(0), reclaimed: Ghost(0) }
    }

    /// How many blocks have been handed out.
    pub fn allocated(&self) -> (r: u64)
        ensures
            r == self.spec_allocated(),
    {
        self.allocated
    }

    /// How many blocks have been taken back.
    pub fn deallocated(&self) -> (r: u64)
        ensures
            r == self.spec_deallocated(),
    {
        self.deallocated
    }
}

impl Default for SpyAllocator {
    fn default() -> (r: SpyAllocator)
        ensures
            r.spec_allocated() == 0,
            r.spec_deallocated() == 0,
            r.allocations() == 0,
            r.deallocations() == 0,
    {
        SpyAllocator::new()
    }
}

impl Allocator for SpyAllocator {
    open spec fn grants(&self, layout: Layout) -> bool {
        true
    }

    open spec fn counting(&self) -> bool {
        true
    }

    closed spec fn allocations(&self) -> int {
        self.lent@
    }

    closed spec fn deallocations(&self) -> int {
        self.reclaimed@
    }

    fn allocate(&mut self, layout: Layout) -> (r: Result<(), AllocError>)
        ensures
            old(self).spec_allocated() < u64::MAX ==> final(self).spec_allocated() == old(
                self,
            ).spec_allocated() + 1,
            final(self).spec_deallocated() == old(self).spec_deallocated(),
    {
        if self.allocated < u64::MAX {
            self.allocated = self.allocated + 1;
        }
        self.lent = Ghost(self.lent@ + 1);
        Ok(())
    }

    fn deallocate(&mut self, layout: Layout)
        ensures
            old(self).spec_deallocated() < u64::MAX ==> final(self).spec_deallocated() == old(
                self,
            ).spec_deallocated() + 1,
            final(self).spec_allocated() == old(self).spec_allocated(),
    {
        if self.deallocated < u64::MAX {
            self.deallocated = self.deallocated + 1;
        }
        self.reclaimed = Ghost(self.reclaimed@ + 1);
    }

    fn grow(&mut self, old_layout: Layout, new_layout: Layout) -> (r: Result<(), AllocError>)
        ensures
            old(self).spec_allocated() < u64::MAX ==> final(self).spec_allocated() == old(
                self,
            ).spec_allocated() + 1,
            old(self).spec_deallocated() < u64::MAX ==> final(self).spec_deallocated() == old(
                self,
            ).spec_deallocated() + 1,
    {
        if self.allocated < u64::MAX {
            self.allocated = self.allocated + 1;
        }
        if self.deallocated < u64::MAX {
            self.deallocated = self.deallocated + 1;
        }
        self.lent = Ghost(self.lent@ + 1);
        self.reclaimed = Ghost(self.reclaimed@ + 1);
        Ok(())
    }

    fn shrink(&mut self, old_layout: Layout, new_layout: Layout) -> (r: Result<(), AllocError>)
        ensures
            old(self).spec_allocated() < u64::MAX ==> final(self).spec_allocated() == old(
                self,
            ).spec_allocated() + 1,
            old(self).spec_deallocated() < u64::MAX ==> final(self).spec_deallocated() == old(
                self,
            ).spec_deallocated() + 1,
    {
        if self.allocated < u64::MAX {
            self.allocated = self.allocated + 1;
        }
        if self.deallocated < u64::MAX {
            self.deallocated = self.deallocated + 1;
        }
        self.lent = Ghost(self.lent@ + 1);
        self.reclaimed = Ghost(self.reclaimed@ + 1);
        Ok(())
    }
}

} // verus!
