//! Information about memory regions within a process.

use vstd::prelude::*;
use crate::cursor::{cursor_after, cursor_yield, remaining_u32, step_u32, yields_u32};

verus! {

/// Information about memory regions within a process.
#[derive(Clone, Debug)]
pub struct SBMemoryRegionInfo<R> {
    /// The underlying raw reference to LLDB's memory region information.
    pub raw: R,
}

impl<R> SBMemoryRegionInfo<R> {
    /// Construct a new `SBMemoryRegionInfo`.
    pub fn wrap(raw: R) -> (r: Self)
        ensures
            r.raw == raw,
    {
        SBMemoryRegionInfo { raw }
    }

    /// Returns an iterator over the addresses of modified pages in this region.
    pub fn dirty_pages(&self) -> (r: SBMemoryRegionInfoDirtyPageIter<'_, R>)
        ensures
            r.position() == 0,
            *r.owner() == *self,
    {
        SBMemoryRegionInfoDirtyPageIter { info: self, idx: 0 }
    }
}

/// Iterate over the addresses of dirty pages in a memory region.
pub struct SBMemoryRegionInfoDirtyPageIter<'d, R> {
    info: &'d SBMemoryRegionInfo<R>,
    idx: u32,
}

impl<'d, R> SBMemoryRegionInfoDirtyPageIter<'d, R> {
    /// How many dirty pages the walk has handed out so far.
    pub closed spec fn position(&self) -> int {
        self.idx as int
    }

    /// The memory region whose dirty pages are walked.
    pub closed spec fn owner(&self) -> &'d SBMemoryRegionInfo<R> {
        self.info
    }

    /// The memory region whose dirty pages are walked.
    pub fn info(&self) -> (r: &'d SBMemoryRegionInfo<R>)
        ensures
            r == self.owner(),
    {
        self.info
    }

    /// The index of the next of the dirty pages to fetch, given the number that
    /// LLDB reports, or `None` once the walk is over.
    pub fn next_index(&mut self, num_dirty_pages: u32) -> (r: Option<u32>)
        ensures
            yields_u32(r, cursor_yield(old(self).position(), num_dirty_pages as int)),
            final(self).position() == cursor_after(old(self).position(), num_dirty_pages as int),
            final(self).owner() == old(self).owner(),
    {
        step_u32(&mut self.idx, num_dirty_pages)
    }

    /// The number of dirty pages still to come, exactly, as both bounds, or `None`
    /// when the walk stands past the number LLDB now reports (the
    /// collection shrank under it).
    pub fn size_hint(&self, num_dirty_pages: u32) -> (r: Option<(usize, Option<usize>)>)
        ensures
            match r {
                Some(h) => self.position() <= num_dirty_pages && h.0 == num_dirty_pages - self.position() && h.1
                    == Some(h.0),
                None => self.position() > num_dirty_pages,
            },
    {
        if self.idx <= num_dirty_pages {
            Some(remaining_u32(self.idx, num_dirty_pages))
        } else {
            None
        }
    }
}

} // verus!
