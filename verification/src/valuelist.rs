//! Lists of values.

use vstd::prelude::*;
use crate::cursor::{cursor_after, cursor_yield, remaining_usize, step_usize, yields_usize};

verus! {

/// A list of values.
#[derive(Clone, Debug)]
pub struct SBValueList<R> {
    /// The underlying raw reference to LLDB's value list.
    pub raw: R,
}

impl<R> SBValueList<R> {
    /// Construct a new `SBValueList`.
    pub fn wrap(raw: R) -> (r: Self)
        ensures
            r.raw == raw,
    {
        SBValueList { raw }
    }

    /// Construct a new `Some(SBValueList)` when LLDB reports `raw` valid, or
    /// `None`.
    pub fn maybe_wrap(raw: R, is_valid: bool) -> (r: Option<Self>)
        ensures
            r is Some <==> is_valid,
            r matches Some(w) ==> w.raw == raw,
    {
        if is_valid {
            Some(SBValueList { raw })
        } else {
            None
        }
    }

    /// Iterate over this value list.
    pub fn iter(&self) -> (r: SBValueListIter<'_, R>)
        ensures
            r.position() == 0,
            *r.owner() == *self,
    {
        SBValueListIter { value_list: self, idx: 0 }
    }

    /// Is this value list empty, given the number of items LLDB reports in it?
    pub fn is_empty(&self, size: u32) -> (r: bool)
        ensures
            r == (size == 0),
    {
        size == 0
    }
}

/// An iterator over the values in an `SBValueList`.
pub struct SBValueListIter<'d, R> {
    value_list: &'d SBValueList<R>,
    idx: usize,
}

impl<'d, R> SBValueListIter<'d, R> {
    /// How many values the walk has handed out so far.
    pub closed spec fn position(&self) -> int {
        self.idx as int
    }

    /// The value list whose values are walked.
    pub closed spec fn owner(&self) -> &'d SBValueList<R> {
        self.value_list
    }

    /// The value list whose values are walked.
    pub fn value_list(&self) -> (r: &'d SBValueList<R>)
        ensures
            r == self.owner(),
    {
        self.value_list
    }

    /// The index of the next of the values to fetch, given the number that
    /// LLDB reports, or `None` once the walk is over.
    pub fn next_index(&mut self, size: usize) -> (r: Option<usize>)
        ensures
            yields_usize(r, cursor_yield(old(self).position(), size as int)),
            final(self).position() == cursor_after(old(self).position(), size as int),
            final(self).owner() == old(self).owner(),
    {
        step_usize(&mut self.idx, size)
    }

    /// The number of values still to come, exactly, as both bounds, or `None`
    /// when the walk stands past the number LLDB now reports (the
    /// collection shrank under it).
    pub fn size_hint(&self, size: usize) -> (r: Option<(usize, Option<usize>)>)
        ensures
            match r {
                Some(h) => self.position() <= size && h.0 == size - self.position() && h.1
                    == Some(h.0),
                None => self.position() > size,
            },
    {
        if self.idx <= size {
            Some(remaining_usize(self.idx, size))
        } else {
            None
        }
    }
}

} // verus!
