//! Logical breakpoints.

use vstd::prelude::*;
use crate::cursor::{cursor_after, cursor_yield, remaining_usize, step_usize, yields_usize};

verus! {

/// A logical breakpoint and its associated settings.
///
/// A breakpoint resolves to one or more locations: each unique address at
/// which it stops. They are visited with [`SBBreakpoint::locations()`].
#[derive(Clone, Debug)]
pub struct SBBreakpoint<R> {
    /// The underlying raw reference to LLDB's breakpoint.
    pub raw: R,
}

impl<R> SBBreakpoint<R> {
    /// Construct a new `SBBreakpoint`.
    pub fn wrap(raw: R) -> (r: Self)
        ensures
            r.raw == raw,
    {
        SBBreakpoint { raw }
    }

    /// Construct a new `Some(SBBreakpoint)` when LLDB reports `raw` valid, or
    /// `None`.
    pub fn maybe_wrap(raw: R, is_valid: bool) -> (r: Option<Self>)
        ensures
            r is Some <==> is_valid,
            r matches Some(w) ==> w.raw == raw,
    {
        if is_valid {
            Some(SBBreakpoint { raw })
        } else {
            None
        }
    }

    /// Get an iterator over the locations of this breakpoint.
    pub fn locations(&self) -> (r: SBBreakpointLocationIter<'_, R>)
        ensures
            r.position() == 0,
            *r.owner() == *self,
    {
        SBBreakpointLocationIter { breakpoint: self, idx: 0 }
    }
}

/// An iterator over the locations in an `SBBreakpoint`.
pub struct SBBreakpointLocationIter<'d, R> {
    breakpoint: &'d SBBreakpoint<R>,
    idx: usize,
}

impl<'d, R> SBBreakpointLocationIter<'d, R> {
    /// How many locations the walk has handed out so far.
    pub closed spec fn position(&self) -> int {
        self.idx as int
    }

    /// The breakpoint whose locations are walked.
    pub closed spec fn owner(&self) -> &'d SBBreakpoint<R> {
        self.breakpoint
    }

    /// The breakpoint whose locations are walked.
    pub fn breakpoint(&self) -> (r: &'d SBBreakpoint<R>)
        ensures
            r == self.owner(),
    {
        self.breakpoint
    }

    /// The index of the next of the locations to fetch, given the number that
    /// LLDB reports, or `None` once the walk is over.
    pub fn next_index(&mut self, num_locations: usize) -> (r: Option<usize>)
        ensures
            yields_usize(r, cursor_yield(old(self).position(), num_locations as int)),
            final(self).position() == cursor_after(old(self).position(), num_locations as int),
            final(self).owner() == old(self).owner(),
    {
        step_usize(&mut self.idx, num_locations)
    }

    /// The number of locations still to come, exactly, as both bounds, or `None`
    /// when the walk stands past the number LLDB now reports (the
    /// collection shrank under it).
    pub fn size_hint(&self, num_locations: usize) -> (r: Option<(usize, Option<usize>)>)
        ensures
            match r {
                Some(h) => self.position() <= num_locations && h.0 == num_locations - self.position() && h.1
                    == Some(h.0),
                None => self.position() > num_locations,
            },
    {
        if self.idx <= num_locations {
            Some(remaining_usize(self.idx, num_locations))
        } else {
            None
        }
    }
}

} // verus!
