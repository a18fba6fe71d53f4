//! Values of variables, registers and expressions.

use vstd::prelude::*;
use crate::cursor::{cursor_after, cursor_yield, remaining_u32, step_u32, yields_u32};

verus! {

/// The value of a variable, a register, or an expression.
#[derive(Clone, Debug)]
pub struct SBValue<R> {
    /// The underlying raw reference to LLDB's value.
    pub raw: R,
}

impl<R> SBValue<R> {
    /// Construct a new `SBValue`.
    pub fn wrap(raw: R) -> (r: Self)
        ensures
            r.raw == raw,
    {
        SBValue { raw }
    }

    /// Construct a new `Some(SBValue)` when LLDB reports `raw` valid, or
    /// `None`.
    pub fn maybe_wrap(raw: R, is_valid: bool) -> (r: Option<Self>)
        ensures
            r is Some <==> is_valid,
            r matches Some(w) ==> w.raw == raw,
    {
        if is_valid {
            Some(SBValue { raw })
        } else {
            None
        }
    }

    /// Get an iterator over the child values of this value.
    pub fn children(&self) -> (r: SBValueChildIter<'_, R>)
        ensures
            r.position() == 0,
            *r.owner() == *self,
    {
        SBValueChildIter { value: self, idx: 0 }
    }

    /// The load address of this value, given the address LLDB reports
    /// (`u64::MAX` when the value has none).
    pub fn load_address(&self, load_address: u64) -> (r: Option<u64>)
        ensures
            r == (if load_address != u64::MAX { Some(load_address) } else { None::<u64> }),
    {
        if load_address != u64::MAX {
            Some(load_address)
        } else {
            None
        }
    }
}

/// Iterate over the child values of a value.
pub struct SBValueChildIter<'d, R> {
    value: &'d SBValue<R>,
    idx: u32,
}

impl<'d, R> SBValueChildIter<'d, R> {
    /// How many children the walk has handed out so far.
    pub closed spec fn position(&self) -> int {
        self.idx as int
    }

    /// The value whose children are walked.
    pub closed spec fn owner(&self) -> &'d SBValue<R> {
        self.value
    }

    /// The value whose children are walked.
    pub fn value(&self) -> (r: &'d SBValue<R>)
        ensures
            r == self.owner(),
    {
        self.value
    }

    /// The index of the next of the children to fetch, given the number that
    /// LLDB reports, or `None` once the walk is over.
    pub fn next_index(&mut self, num_children: u32) -> (r: Option<u32>)
        ensures
            yields_u32(r, cursor_yield(old(self).position(), num_children as int)),
            final(self).position() == cursor_after(old(self).position(), num_children as int),
            final(self).owner() == old(self).owner(),
    {
        step_u32(&mut self.idx, num_children)
    }

    /// The number of children still to come, exactly, as both bounds, or `None`
    /// when the walk stands past the number LLDB now reports (the
    /// collection shrank under it).
    pub fn size_hint(&self, num_children: u32) -> (r: Option<(usize, Option<usize>)>)
        ensures
            match r {
                Some(h) => self.position() <= num_children && h.0 == num_children - self.position() && h.1
                    == Some(h.0),
                None => self.position() > num_children,
            },
    {
        if self.idx <= num_children {
            Some(remaining_u32(self.idx, num_children))
        } else {
            None
        }
    }
}

} // verus!
