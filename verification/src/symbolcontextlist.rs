//! Lists of symbol contexts.

use vstd::prelude::*;
use crate::cursor::{cursor_after, cursor_yield, remaining_usize, step_usize, yields_usize};

verus! {

/// A list of symbol contexts.
#[derive(Clone, Debug)]
pub struct SBSymbolContextList<R> {
    /// The underlying raw reference to LLDB's symbol context list.
    pub raw: R,
}

impl<R> SBSymbolContextList<R> {
    /// Construct a new `SBSymbolContextList`.
    pub fn wrap(raw: R) -> (r: Self)
        ensures
            r.raw == raw,
    {
        SBSymbolContextList { raw }
    }

    /// Construct a new `Some(SBSymbolContextList)` when LLDB reports `raw` valid, or
    /// `None`.
    pub fn maybe_wrap(raw: R, is_valid: bool) -> (r: Option<Self>)
        ensures
            r is Some <==> is_valid,
            r matches Some(w) ==> w.raw == raw,
    {
        if is_valid {
            Some(SBSymbolContextList { raw })
        } else {
            None
        }
    }

    /// Iterate over this symbol context list.
    pub fn iter(&self) -> (r: SBSymbolContextListIter<'_, R>)
        ensures
            r.position() == 0,
            *r.owner() == *self,
    {
        SBSymbolContextListIter { context_list: self, idx: 0 }
    }

    /// Is this symbol context list empty, given the number of items LLDB reports in it?
    pub fn is_empty(&self, size: u32) -> (r: bool)
        ensures
            r == (size == 0),
    {
        size == 0
    }
}

/// An iterator over the symbol contexts in an `SBSymbolContextList`.
pub struct SBSymbolContextListIter<'d, R> {
    context_list: &'d SBSymbolContextList<R>,
    idx: usize,
}

impl<'d, R> SBSymbolContextListIter<'d, R> {
    /// How many symbol contexts the walk has handed out so far.
    pub closed spec fn position(&self) -> int {
        self.idx as int
    }

    /// The symbol context list whose symbol contexts are walked.
    pub closed spec fn owner(&self) -> &'d SBSymbolContextList<R> {
        self.context_list
    }

    /// The symbol context list whose symbol contexts are walked.
    pub fn context_list(&self) -> (r: &'d SBSymbolContextList<R>)
        ensures
            r == self.owner(),
    {
        self.context_list
    }

    /// The index of the next of the symbol contexts to fetch, given the number that
    /// LLDB reports, or `None` once the walk is over.
    pub fn next_index(&mut self, size: usize) -> (r: Option<usize>)
        ensures
            yields_usize(r, cursor_yield(old(self).position(), size as int)),
            final(self).position() == cursor_after(old(self).position(), size as int),
            final(self).owner() == old(self).owner(),
    {
        step_usize(&mut self.idx, size)
    }

    /// The number of symbol contexts still to come, exactly, as both bounds, or `None`
    /// when the walk stands past the number LLDB now reports (the
    /// collection shrank under it).
    pub fn size_hint(&self, size: usize) -> (r: Option<(usize, Option<usize>)>)
        ensures
            match r {
                Some(h) => self.position() <= size && h.0 == size - self.position() && h.1
                    == Some(h.0),
                None => self.position() > size,
            },
    {
        if self.idx <= size {
            Some(remaining_usize(self.idx, size))
        } else {
            None
        }
    }
}

} // verus!
