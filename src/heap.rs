use vstd::prelude::*;

use crate::paging::PagingError;

verus! {

/// A small-object region: `[start, start + size)`.
pub struct LittleAllocator {
    pub start: usize,
    pub size: usize,
    pub current_offset: usize,
}

impl LittleAllocator {
    /// One past the last address of the region.
    pub fn end(&self) -> (r: usize)
        requires
            self.start + self.size <= usize::MAX,
        ensures
            r == self.start + self.size,
    {
        self.start + self.size
    }

    /// Address of the next free byte, for an object of `size` bytes that fits the region.
    pub fn alloc_bytes(&mut self, size: usize) -> (r: usize)
        requires
            old(self).start + old(self).size <= usize::MAX,
            old(self).start + old(self).current_offset <= usize::MAX,
            size <= old(self).size,
        ensures
            r == old(self).start + old(self).current_offset,
            *final(self) == *old(self),
    {
        self.start + self.current_offset
    }
}

/// Why a page allocation failed.
#[derive(Debug, Clone, Copy, PartialEq, Eq, Structural)]
pub enum AllocationError {
    Paging(PagingError),
    NoPagesAvailable,
}

} // verus!
