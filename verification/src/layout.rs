//! Shape descriptors: the size and alignment a value demands.

use vstd::prelude::*;

verus! {

/// The single error of every fallible storage operation: no space is left, or
/// the requested shape is not one the backend accepts.
#[derive(Clone, Copy, PartialEq, Eq, Structural, Debug)]
pub struct AllocError;

/// Size and alignment demanded by a value, in bytes.
///
/// A backend compares the shape of a requested value against the shape of the
/// space it manages; alignments are powers of two, so one alignment demand is
/// met by another exactly when it is no larger.
#[derive(Clone, Copy, PartialEq, Eq, Structural, Debug)]
pub struct Layout {
    pub size: usize,
    pub align: usize,
}

impl Layout {
    /// A layout is meaningful when its alignment is at least one.
    pub open spec fn wf(self) -> bool {
        self.align >= 1
    }

    pub fn new(size: usize, align: usize) -> (r: Layout)
        requires
            align >= 1,
        ensures
            r.size == size,
            r.align == align,
            r.wf(),
    {
        Layout { size, align }
    }

    /// A requested shape fits an available one when both its size and its
    /// alignment demand are covered.
    pub open spec fn spec_fits(self, avail: Layout) -> bool {
        self.size <= avail.size && self.align <= avail.align
    }

    pub fn fits(&self, avail: &Layout) -> (r: bool)
        ensures
            r == self.spec_fits(*avail),
    {
        self.size <= avail.size && self.align <= avail.align
    }

    /// Shape of an array of `count` values of this shape, when its total size
    /// is representable.
    pub open spec fn spec_array(self, count: int) -> Option<Layout> {
        if 0 <= count && self.size * count <= usize::MAX {
            Some(Layout { size: (self.size * count) as usize, align: self.align })
        } else {
            None
        }
    }

    pub fn array(&self, count: usize) -> (r: Option<Layout>)
        ensures
            r == self.spec_array(count as int),
            self.wf() && r is Some ==> r->0.wf(),
    {
        match self.size.checked_mul(count) {
            Some(size) => Some(Layout { size, align: self.align }),
            None => None,
        }
    }
}

} // verus!
