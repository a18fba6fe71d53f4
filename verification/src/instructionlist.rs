//! Lists of machine instructions.

use vstd::prelude::*;
use crate::cursor::{cursor_after, cursor_yield, remaining_usize, step_usize, yields_usize};

verus! {

/// A list of machine instructions.
#[derive(Clone, Debug)]
pub struct SBInstructionList<R> {
    /// The underlying raw reference to LLDB's instruction list.
    pub raw: R,
}

impl<R> SBInstructionList<R> {
    /// Construct a new `SBInstructionList`.
    pub fn wrap(raw: R) -> (r: Self)
        ensures
            r.raw == raw,
    {
        SBInstructionList { raw }
    }

    /// Construct a new `Some(SBInstructionList)` when LLDB reports `raw` valid, or
    /// `None`.
    pub fn maybe_wrap(raw: R, is_valid: bool) -> (r: Option<Self>)
        ensures
            r is Some <==> is_valid,
            r matches Some(w) ==> w.raw == raw,
    {
        if is_valid {
            Some(SBInstructionList { raw })
        } else {
            None
        }
    }

    /// Iterate over this instruction list.
    pub fn iter(&self) -> (r: SBInstructionListIter<'_, R>)
        ensures
            r.position() == 0,
            *r.owner() == *self,
    {
        SBInstructionListIter { instruction_list: self, idx: 0 }
    }

    /// Is this instruction list empty, given the number of items LLDB reports in it?
    pub fn is_empty(&self, size: usize) -> (r: bool)
        ensures
            r == (size == 0),
    {
        size == 0
    }
}

/// An iterator over the instructions in an `SBInstructionList`.
pub struct SBInstructionListIter<'d, R> {
    instruction_list: &'d SBInstructionList<R>,
    idx: usize,
}

impl<'d, R> SBInstructionListIter<'d, R> {
    /// How many instructions the walk has handed out so far.
    pub closed spec fn position(&self) -> int {
        self.idx as int
    }

    /// The instruction list whose instructions are walked.
    pub closed spec fn owner(&self) -> &'d SBInstructionList<R> {
        self.instruction_list
    }

    /// The instruction list whose instructions are walked.
    pub fn instruction_list(&self) -> (r: &'d SBInstructionList<R>)
        ensures
            r == self.owner(),
    {
        self.instruction_list
    }

    /// The index of the next of the instructions to fetch, given the number that
    /// LLDB reports, or `None` once the walk is over.
    pub fn next_index(&mut self, size: usize) -> (r: Option<usize>)
        ensures
            yields_usize(r, cursor_yield(old(self).position(), size as int)),
            final(self).position() == cursor_after(old(self).position(), size as int),
            final(self).owner() == old(self).owner(),
    {
        step_usize(&mut self.idx, size)
    }

    /// The number of instructions still to come, exactly, as both bounds, or `None`
    /// when the walk stands past the number LLDB now reports (the
    /// collection shrank under it).
    pub fn size_hint(&self, size: usize) -> (r: Option<(usize, Option<usize>)>)
        ensures
            match r {
                Some(h) => self.position() <= size && h.0 == size - self.position() && h.1
                    == Some(h.0),
                None => self.position() > size,
            },
    {
        if self.idx <= size {
            Some(remaining_usize(self.idx, size))
        } else {
            None
        }
    }
}

} // verus!
