//! Compilation units.

use vstd::prelude::*;
use crate::cursor::{cursor_after, cursor_yield, remaining_u32, step_u32, yields_u32};

verus! {

/// A compilation unit or compiled source file.
#[derive(Clone, Debug)]
pub struct SBCompileUnit<R> {
    /// The underlying raw reference to LLDB's compile unit.
    pub raw: R,
}

impl<R> SBCompileUnit<R> {
    /// Construct a new `SBCompileUnit`.
    pub fn wrap(raw: R) -> (r: Self)
        ensures
            r.raw == raw,
    {
        SBCompileUnit { raw }
    }

    /// Construct a new `Some(SBCompileUnit)` when LLDB reports `raw` valid, or
    /// `None`.
    pub fn maybe_wrap(raw: R, is_valid: bool) -> (r: Option<Self>)
        ensures
            r is Some <==> is_valid,
            r matches Some(w) ==> w.raw == raw,
    {
        if is_valid {
            Some(SBCompileUnit { raw })
        } else {
            None
        }
    }

    /// Iterate over the line entries in this compile unit.
    pub fn line_entries(&self) -> (r: SBCompileUnitLineEntryIter<'_, R>)
        ensures
            r.position() == 0,
            *r.owner() == *self,
    {
        SBCompileUnitLineEntryIter { source: self, idx: 0 }
    }
}

/// Iterate over the line entries in a compile unit.
pub struct SBCompileUnitLineEntryIter<'d, R> {
    source: &'d SBCompileUnit<R>,
    idx: u32,
}

impl<'d, R> SBCompileUnitLineEntryIter<'d, R> {
    /// How many line entries the walk has handed out so far.
    pub closed spec fn position(&self) -> int {
        self.idx as int
    }

    /// The compile unit whose line entries are walked.
    pub closed spec fn owner(&self) -> &'d SBCompileUnit<R> {
        self.source
    }

    /// The compile unit whose line entries are walked.
    pub fn source(&self) -> (r: &'d SBCompileUnit<R>)
        ensures
            r == self.owner(),
    {
        self.source
    }

    /// The index of the next of the line entries to fetch, given the number that
    /// LLDB reports, or `None` once the walk is over.
    pub fn next_index(&mut self, num_line_entries: u32) -> (r: Option<u32>)
        ensures
            yields_u32(r, cursor_yield(old(self).position(), num_line_entries as int)),
            final(self).position() == cursor_after(old(self).position(), num_line_entries as int),
            final(self).owner() == old(self).owner(),
    {
        step_u32(&mut self.idx, num_line_entries)
    }

    /// The number of line entries still to come, exactly, as both bounds, or `None`
    /// when the walk stands past the number LLDB now reports (the
    /// collection shrank under it).
    pub fn size_hint(&self, num_line_entries: u32) -> (r: Option<(usize, Option<usize>)>)
        ensures
            match r {
                Some(h) => self.position() <= num_line_entries && h.0 == num_line_entries - self.position() && h.1
                    == Some(h.0),
                None => self.position() > num_line_entries,
            },
    {
        if self.idx <= num_line_entries {
            Some(remaining_u32(self.idx, num_line_entries))
        } else {
            None
        }
    }
}

} // verus!
