//! Executable images.

use vstd::prelude::*;
use crate::cursor::{cursor_after, cursor_yield, remaining_usize, step_usize, yields_usize};

verus! {

/// An executable image and its associated object and symbol files.
///
/// The sections of a module are visited with [`SBModule::sections()`] and its
/// symbols with [`SBModule::symbols()`].
#[derive(Clone, Debug)]
pub struct SBModule<R> {
    /// The underlying raw reference to LLDB's module.
    pub raw: R,
}

impl<R> SBModule<R> {
    /// Construct a new `SBModule`.
    pub fn wrap(raw: R) -> (r: Self)
        ensures
            r.raw == raw,
    {
        SBModule { raw }
    }

    /// Construct a new `Some(SBModule)` when LLDB reports `raw` valid, or
    /// `None`.
    pub fn maybe_wrap(raw: R, is_valid: bool) -> (r: Option<Self>)
        ensures
            r is Some <==> is_valid,
            r matches Some(w) ==> w.raw == raw,
    {
        if is_valid {
            Some(SBModule { raw })
        } else {
            None
        }
    }

    /// Get an iterator over the sections known to this module instance.
    pub fn sections(&self) -> (r: SBModuleSectionIter<'_, R>)
        ensures
            r.position() == 0,
            *r.owner() == *self,
    {
        SBModuleSectionIter { module: self, idx: 0 }
    }

    /// Get an iterator over the symbols of this module.
    pub fn symbols(&self) -> (r: SBModuleSymbolsIter<'_, R>)
        ensures
            r.position() == 0,
            *r.owner() == *self,
    {
        SBModuleSymbolsIter { module: self, index: 0 }
    }
}

/// Iterate over the sections in a module.
pub struct SBModuleSectionIter<'d, R> {
    module: &'d SBModule<R>,
    idx: usize,
}

impl<'d, R> SBModuleSectionIter<'d, R> {
    /// How many sections the walk has handed out so far.
    pub closed spec fn position(&self) -> int {
        self.idx as int
    }

    /// The module whose sections are walked.
    pub closed spec fn owner(&self) -> &'d SBModule<R> {
        self.module
    }

    /// The module whose sections are walked.
    pub fn module(&self) -> (r: &'d SBModule<R>)
        ensures
            r == self.owner(),
    {
        self.module
    }

    /// The index of the next of the sections to fetch, given the number that
    /// LLDB reports, or `None` once the walk is over.
    pub fn next_index(&mut self, num_sections: usize) -> (r: Option<usize>)
        ensures
            yields_usize(r, cursor_yield(old(self).position(), num_sections as int)),
            final(self).position() == cursor_after(old(self).position(), num_sections as int),
            final(self).owner() == old(self).owner(),
    {
        step_usize(&mut self.idx, num_sections)
    }

    /// The number of sections still to come, exactly, as both bounds, or `None`
    /// when the walk stands past the number LLDB now reports (the
    /// collection shrank under it).
    pub fn size_hint(&self, num_sections: usize) -> (r: Option<(usize, Option<usize>)>)
        ensures
            match r {
                Some(h) => self.position() <= num_sections && h.0 == num_sections - self.position() && h.1
                    == Some(h.0),
                None => self.position() > num_sections,
            },
    {
        if self.idx <= num_sections {
            Some(remaining_usize(self.idx, num_sections))
        } else {
            None
        }
    }
}

/// Iterate over the symbols in a module.
///
/// The walk is bounded by the number of symbols that LLDB reports for the
/// module (see [`SBModuleSymbolsIter::nth_index()`]). Asking for more than
/// remains ends the walk without an item and moves the position back to
/// the distance that was left to the end, so a later request may start
/// again from there: unlike the other walks, this one does not stay
/// exhausted.
pub struct SBModuleSymbolsIter<'d, R> {
    module: &'d SBModule<R>,
    index: usize,
}

impl<'d, R> SBModuleSymbolsIter<'d, R> {
    /// The position of the walk.
    pub closed spec fn position(&self) -> int {
        self.index as int
    }

    /// The module whose symbols are walked.
    pub closed spec fn owner(&self) -> &'d SBModule<R> {
        self.module
    }

    /// The module whose symbols are walked.
    pub fn module(&self) -> (r: &'d SBModule<R>)
        ensures
            r == self.owner(),
    {
        self.module
    }

    /// The index of the symbol `n` places after the current position, given
    /// the number `count` of symbols in the module.
    ///
    /// When that index lies before `count`, it is handed out and the walk
    /// moves just past it. Otherwise nothing is handed out and the position
    /// becomes the number of symbols that remained before the call, so that
    /// a later request may hand out symbols again from there.
    pub fn nth_index(&mut self, n: usize, count: usize) -> (r: Option<usize>)
        requires
            old(self).position() <= count,
            n + old(self).position() <= usize::MAX,
        ensures
            n + old(self).position() < count ==> r == Some((n + old(self).position()) as usize)
                && final(self).position() == n + old(self).position() + 1,
            n + old(self).position() >= count ==> r is None && final(self).position() == count
                - old(self).position(),
            final(self).position() <= count,
            final(self).owner() == old(self).owner(),
    {
        let index = n + self.index;
        if index < count {
            self.index = index + 1;
            Some(index)
        } else {
            self.index = count - self.index;
            None
        }
    }

    /// The index of the next symbol, given the number `count` of symbols in
    /// the module: the same as [`SBModuleSymbolsIter::nth_index()`] with
    /// `n == 0`.
    pub fn next_index(&mut self, count: usize) -> (r: Option<usize>)
        requires
            old(self).position() <= count,
        ensures
            yields_usize(r, cursor_yield(old(self).position(), count as int)),
            old(self).position() < count ==> final(self).position() == old(self).position() + 1,
            old(self).position() >= count ==> final(self).position() == 0,
            final(self).position() <= count,
            final(self).owner() == old(self).owner(),
    {
        self.nth_index(0, count)
    }

    /// The number of symbols still to come, exactly, as both bounds, or
    /// `None` when the walk stands past `count`.
    pub fn size_hint(&self, count: usize) -> (r: Option<(usize, Option<usize>)>)
        ensures
            match r {
                Some(h) => self.position() <= count && h.0 == count - self.position() && h.1
                    == Some(h.0),
                None => self.position() > count,
            },
    {
        if self.index <= count {
            let len = count - self.index;
            Some((len, Some(len)))
        } else {
            None
        }
    }
}

} // verus!
