//! Lists of types.

use vstd::prelude::*;
use crate::cursor::{cursor_after, cursor_yield, remaining_usize, step_usize, yields_usize};

verus! {

/// A list of types.
#[derive(Clone, Debug)]
pub struct SBTypeList<R> {
    /// The underlying raw reference to LLDB's type list.
    pub raw: R,
}

impl<R> SBTypeList<R> {
    /// Construct a new `SBTypeList`.
    pub fn wrap(raw: R) -> (r: Self)
        ensures
            r.raw == raw,
    {
        SBTypeList { raw }
    }

    /// Iterate over this type list.
    pub fn iter(&self) -> (r: SBTypeListIter<'_, R>)
        ensures
            r.position() == 0,
            *r.owner() == *self,
    {
        SBTypeListIter { type_list: self, idx: 0 }
    }

    /// Is this type list empty, given the number of items LLDB reports in it?
    pub fn is_empty(&self, size: u32) -> (r: bool)
        ensures
            r == (size == 0),
    {
        size == 0
    }
}

/// An iterator over the types in an `SBTypeList`.
pub struct SBTypeListIter<'d, R> {
    type_list: &'d SBTypeList<R>,
    idx: usize,
}

impl<'d, R> SBTypeListIter<'d, R> {
    /// How many types the walk has handed out so far.
    pub closed spec fn position(&self) -> int {
        self.idx as int
    }

    /// The type list whose types are walked.
    pub closed spec fn owner(&self) -> &'d SBTypeList<R> {
        self.type_list
    }

    /// The type list whose types are walked.
    pub fn type_list(&self) -> (r: &'d SBTypeList<R>)
        ensures
            r == self.owner(),
    {
        self.type_list
    }

    /// The index of the next of the types to fetch, given the number that
    /// LLDB reports, or `None` once the walk is over.
    pub fn next_index(&mut self, size: usize) -> (r: Option<usize>)
        ensures
            yields_usize(r, cursor_yield(old(self).position(), size as int)),
            final(self).position() == cursor_after(old(self).position(), size as int),
            final(self).owner() == old(self).owner(),
    {
        step_usize(&mut self.idx, size)
    }

    /// The number of types still to come, exactly, as both bounds, or `None`
    /// when the walk stands past the number LLDB now reports (the
    /// collection shrank under it).
    pub fn size_hint(&self, size: usize) -> (r: Option<(usize, Option<usize>)>)
        ensures
            match r {
                Some(h) => self.position() <= size && h.0 == size - self.position() && h.1
                    == Some(h.0),
                None => self.position() > size,
            },
    {
        if self.idx <= size {
            Some(remaining_usize(self.idx, size))
        } else {
            None
        }
    }
}

} // verus!
