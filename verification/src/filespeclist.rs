//! Lists of file specifications.

use vstd::prelude::*;
use crate::cursor::{cursor_after, cursor_yield, remaining_usize, step_usize, yields_usize};

verus! {

/// A list of file specifications.
#[derive(Clone, Debug)]
pub struct SBFileSpecList<R> {
    /// The underlying raw reference to LLDB's file specification list.
    pub raw: R,
}

impl<R> SBFileSpecList<R> {
    /// Construct a new `SBFileSpecList`.
    pub fn wrap(raw: R) -> (r: Self)
        ensures
            r.raw == raw,
    {
        SBFileSpecList { raw }
    }

    /// Iterate over this file specification list.
    pub fn iter(&self) -> (r: SBFileSpecListIter<'_, R>)
        ensures
            r.position() == 0,
            *r.owner() == *self,
    {
        SBFileSpecListIter { filespec_list: self, idx: 0 }
    }

    /// Is this file specification list empty, given the number of items LLDB reports in it?
    pub fn is_empty(&self, size: u32) -> (r: bool)
        ensures
            r == (size == 0),
    {
        size == 0
    }
}

/// An iterator over the file specifications in an `SBFileSpecList`.
pub struct SBFileSpecListIter<'d, R> {
    filespec_list: &'d SBFileSpecList<R>,
    idx: usize,
}

impl<'d, R> SBFileSpecListIter<'d, R> {
    /// How many file specifications the walk has handed out so far.
    pub closed spec fn position(&self) -> int {
        self.idx as int
    }

    /// The file specification list whose file specifications are walked.
    pub closed spec fn owner(&self) -> &'d SBFileSpecList<R> {
        self.filespec_list
    }

    /// The file specification list whose file specifications are walked.
    pub fn filespec_list(&self) -> (r: &'d SBFileSpecList<R>)
        ensures
            r == self.owner(),
    {
        self.filespec_list
    }

    /// The index of the next of the file specifications to fetch, given the number that
    /// LLDB reports, or `None` once the walk is over.
    pub fn next_index(&mut self, size: usize) -> (r: Option<usize>)
        ensures
            yields_usize(r, cursor_yield(old(self).position(), size as int)),
            final(self).position() == cursor_after(old(self).position(), size as int),
            final(self).owner() == old(self).owner(),
    {
        step_usize(&mut self.idx, size)
    }

    /// The number of file specifications still to come, exactly, as both bounds, or `None`
    /// when the walk stands past the number LLDB now reports (the
    /// collection shrank under it).
    pub fn size_hint(&self, size: usize) -> (r: Option<(usize, Option<usize>)>)
        ensures
            match r {
                Some(h) => self.position() <= size && h.0 == size - self.position() && h.1
                    == Some(h.0),
                None => self.position() > size,
            },
    {
        if self.idx <= size {
            Some(remaining_usize(self.idx, size))
        } else {
            None
        }
    }
}

} // verus!
