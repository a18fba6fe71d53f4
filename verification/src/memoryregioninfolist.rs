//! Lists of memory regions.

use vstd::prelude::*;
use crate::cursor::{cursor_after, cursor_yield, remaining_u32, step_u32, yields_u32};

verus! {

/// A list of memory regions.
#[derive(Clone, Debug)]
pub struct SBMemoryRegionInfoList<R> {
    /// The underlying raw reference to LLDB's memory region list.
    pub raw: R,
}

impl<R> SBMemoryRegionInfoList<R> {
    /// Construct a new `SBMemoryRegionInfoList`.
    pub fn wrap(raw: R) -> (r: Self)
        ensures
            r.raw == raw,
    {
        SBMemoryRegionInfoList { raw }
    }

    /// Iterate over this memory region list.
    pub fn iter(&self) -> (r: SBMemoryRegionInfoListIter<'_, R>)
        ensures
            r.position() == 0,
            *r.owner() == *self,
    {
        SBMemoryRegionInfoListIter { list: self, idx: 0 }
    }

    /// Is this memory region list empty, given the number of items LLDB reports in it?
    pub fn is_empty(&self, size: u32) -> (r: bool)
        ensures
            r == (size == 0),
    {
        size == 0
    }
}

/// Iterate over the memory regions in an `SBMemoryRegionInfoList`.
pub struct SBMemoryRegionInfoListIter<'d, R> {
    list: &'d SBMemoryRegionInfoList<R>,
    idx: u32,
}

impl<'d, R> SBMemoryRegionInfoListIter<'d, R> {
    /// How many memory regions the walk has handed out so far.
    pub closed spec fn position(&self) -> int {
        self.idx as int
    }

    /// The memory region list whose memory regions are walked.
    pub closed spec fn owner(&self) -> &'d SBMemoryRegionInfoList<R> {
        self.list
    }

    /// The memory region list whose memory regions are walked.
    pub fn list(&self) -> (r: &'d SBMemoryRegionInfoList<R>)
        ensures
            r == self.owner(),
    {
        self.list
    }

    /// What one step of the walk yields for the region at the index that
    /// [`SBMemoryRegionInfoListIter::next_index()`] handed out: `region`,
    /// freshly made and given to LLDB to fill, when LLDB reports that it
    /// filled it (`filled`), and `None` otherwise.
    pub fn fetched_region<T>(&self, region: T, filled: bool) -> (r: Option<T>)
        ensures
            r is Some <==> filled,
            r matches Some(x) ==> x == region,
    {
        if filled {
            Some(region)
        } else {
            None
        }
    }

    /// The index of the next of the memory regions to fetch, given the number that
    /// LLDB reports, or `None` once the walk is over.
    pub fn next_index(&mut self, size: u32) -> (r: Option<u32>)
        ensures
            yields_u32(r, cursor_yield(old(self).position(), size as int)),
            final(self).position() == cursor_after(old(self).position(), size as int),
            final(self).owner() == old(self).owner(),
    {
        step_u32(&mut self.idx, size)
    }

    /// The number of memory regions still to come, exactly, as both bounds, or `None`
    /// when the walk stands past the number LLDB now reports (the
    /// collection shrank under it).
    pub fn size_hint(&self, size: u32) -> (r: Option<(usize, Option<usize>)>)
        ensures
            match r {
                Some(h) => self.position() <= size && h.0 == size - self.position() && h.1
                    == Some(h.0),
                None => self.position() > size,
            },
    {
        if self.idx <= size {
            Some(remaining_u32(self.idx, size))
        } else {
            None
        }
    }
}

} // verus!
