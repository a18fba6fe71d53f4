//! Lists of breakpoints.

use vstd::prelude::*;
use crate::cursor::{cursor_after, cursor_yield, remaining_usize, step_usize, yields_usize};

verus! {

/// A list of breakpoints.
#[derive(Clone, Debug)]
pub struct SBBreakpointList<R> {
    /// The underlying raw reference to LLDB's breakpoint list.
    pub raw: R,
}

impl<R> SBBreakpointList<R> {
    /// Construct a new `SBBreakpointList`.
    pub fn wrap(raw: R) -> (r: Self)
        ensures
            r.raw == raw,
    {
        SBBreakpointList { raw }
    }

    /// Iterate over this breakpoint list.
    pub fn iter(&self) -> (r: SBBreakpointListIter<'_, R>)
        ensures
            r.position() == 0,
            *r.owner() == *self,
    {
        SBBreakpointListIter { breakpoint_list: self, idx: 0 }
    }

    /// Is this breakpoint list empty, given the number of items LLDB reports in it?
    pub fn is_empty(&self, size: usize) -> (r: bool)
        ensures
            r == (size == 0),
    {
        size == 0
    }
}

/// An iterator over the breakpoints in an `SBBreakpointList`.
pub struct SBBreakpointListIter<'d, R> {
    breakpoint_list: &'d SBBreakpointList<R>,
    idx: usize,
}

impl<'d, R> SBBreakpointListIter<'d, R> {
    /// How many breakpoints the walk has handed out so far.
    pub closed spec fn position(&self) -> int {
        self.idx as int
    }

    /// The breakpoint list whose breakpoints are walked.
    pub closed spec fn owner(&self) -> &'d SBBreakpointList<R> {
        self.breakpoint_list
    }

    /// The breakpoint list whose breakpoints are walked.
    pub fn breakpoint_list(&self) -> (r: &'d SBBreakpointList<R>)
        ensures
            r == self.owner(),
    {
        self.breakpoint_list
    }

    /// The index of the next of the breakpoints to fetch, given the number that
    /// LLDB reports, or `None` once the walk is over.
    pub fn next_index(&mut self, size: usize) -> (r: Option<usize>)
        ensures
            yields_usize(r, cursor_yield(old(self).position(), size as int)),
            final(self).position() == cursor_after(old(self).position(), size as int),
            final(self).owner() == old(self).owner(),
    {
        step_usize(&mut self.idx, size)
    }

    /// The number of breakpoints still to come, exactly, as both bounds, or `None`
    /// when the walk stands past the number LLDB now reports (the
    /// collection shrank under it).
    pub fn size_hint(&self, size: usize) -> (r: Option<(usize, Option<usize>)>)
        ensures
            match r {
                Some(h) => self.position() <= size && h.0 == size - self.position() && h.1
                    == Some(h.0),
                None => self.position() > size,
            },
    {
        if self.idx <= size {
            Some(remaining_usize(self.idx, size))
        } else {
            None
        }
    }
}

} // verus!
