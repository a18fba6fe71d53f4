//! Lists of strings.

use vstd::prelude::*;
use crate::cursor::{cursor_after, cursor_yield, remaining_usize, step_usize, yields_usize};

verus! {

/// A list of strings.
#[derive(Clone, Debug)]
pub struct SBStringList<R> {
    /// The underlying raw reference to LLDB's string list.
    pub raw: R,
}

impl<R> SBStringList<R> {
    /// Construct a new `SBStringList`.
    pub fn wrap(raw: R) -> (r: Self)
        ensures
            r.raw == raw,
    {
        SBStringList { raw }
    }

    /// Construct a new `Some(SBStringList)` when LLDB reports `raw` valid, or
    /// `None`.
    pub fn maybe_wrap(raw: R, is_valid: bool) -> (r: Option<Self>)
        ensures
            r is Some <==> is_valid,
            r matches Some(w) ==> w.raw == raw,
    {
        if is_valid {
            Some(SBStringList { raw })
        } else {
            None
        }
    }

    /// Iterate over this string list.
    pub fn iter(&self) -> (r: SBStringListIter<'_, R>)
        ensures
            r.position() == 0,
            *r.owner() == *self,
    {
        SBStringListIter { string_list: self, idx: 0 }
    }

    /// Is this string list empty, given the number of items LLDB reports in it?
    pub fn is_empty(&self, size: u32) -> (r: bool)
        ensures
            r == (size == 0),
    {
        size == 0
    }
}

/// An iterator over an `SBStringList`.
pub struct SBStringListIter<'d, R> {
    string_list: &'d SBStringList<R>,
    idx: usize,
}

impl<'d, R> SBStringListIter<'d, R> {
    /// How many strings the walk has handed out so far.
    pub closed spec fn position(&self) -> int {
        self.idx as int
    }

    /// The string list whose strings are walked.
    pub closed spec fn owner(&self) -> &'d SBStringList<R> {
        self.string_list
    }

    /// The string list whose strings are walked.
    pub fn string_list(&self) -> (r: &'d SBStringList<R>)
        ensures
            r == self.owner(),
    {
        self.string_list
    }

    /// The index of the next of the strings to fetch, given the number that
    /// LLDB reports, or `None` once the walk is over.
    pub fn next_index(&mut self, size: usize) -> (r: Option<usize>)
        ensures
            yields_usize(r, cursor_yield(old(self).position(), size as int)),
            final(self).position() == cursor_after(old(self).position(), size as int),
            final(self).owner() == old(self).owner(),
    {
        step_usize(&mut self.idx, size)
    }

    /// The number of strings still to come, exactly, as both bounds, or `None`
    /// when the walk stands past the number LLDB now reports (the
    /// collection shrank under it).
    pub fn size_hint(&self, size: usize) -> (r: Option<(usize, Option<usize>)>)
        ensures
            match r {
                Some(h) => self.position() <= size && h.0 == size - self.position() && h.1
                    == Some(h.0),
                None => self.position() > size,
            },
    {
        if self.idx <= size {
            Some(remaining_usize(self.idx, size))
        } else {
            None
        }
    }
}

} // verus!
