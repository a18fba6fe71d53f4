//! The debugger.

use vstd::prelude::*;
use crate::cursor::{cursor_after, cursor_yield, remaining_u32, remaining_usize, step_u32, step_usize, yields_u32, yields_usize};

verus! {

/// Creates `SBTarget`s, provides access to them and manages the overall
/// debugging experience.
///
/// The debugger tracks the targets created with it, visited with
/// [`SBDebugger::targets()`], the platforms that are active, visited with
/// [`SBDebugger::platforms()`], and the platforms that could be activated,
/// visited with [`SBDebugger::available_platforms()`].
#[derive(Clone, Debug)]
pub struct SBDebugger<R> {
    /// The underlying raw reference to LLDB's debugger.
    pub raw: R,
}

impl<R> SBDebugger<R> {
    /// Construct a new `SBDebugger`.
    pub fn wrap(raw: R) -> (r: Self)
        ensures
            r.raw == raw,
    {
        SBDebugger { raw }
    }

    /// Get an iterator over the targets known to this debugger instance.
    pub fn targets(&self) -> (r: SBDebuggerTargetIter<'_, R>)
        ensures
            r.position() == 0,
            *r.owner() == *self,
    {
        SBDebuggerTargetIter { debugger: self, idx: 0 }
    }

    /// Get an iterator over the currently active platforms.
    pub fn platforms(&self) -> (r: SBDebuggerPlatformIter<'_, R>)
        ensures
            r.position() == 0,
            *r.owner() == *self,
    {
        SBDebuggerPlatformIter { debugger: self, idx: 0 }
    }

    /// Get an iterator over the available platforms known to this debugger instance.
    pub fn available_platforms(&self) -> (r: SBDebuggerAvailablePlatformIter<'_, R>)
        ensures
            r.position() == 0,
            *r.owner() == *self,
    {
        SBDebuggerAvailablePlatformIter { debugger: self, idx: 0 }
    }
}

/// Iterate over the targets known to a debugger.
pub struct SBDebuggerTargetIter<'d, R> {
    debugger: &'d SBDebugger<R>,
    idx: usize,
}

impl<'d, R> SBDebuggerTargetIter<'d, R> {
    /// How many targets the walk has handed out so far.
    pub closed spec fn position(&self) -> int {
        self.idx as int
    }

    /// The debugger whose targets are walked.
    pub closed spec fn owner(&self) -> &'d SBDebugger<R> {
        self.debugger
    }

    /// The debugger whose targets are walked.
    pub fn debugger(&self) -> (r: &'d SBDebugger<R>)
        ensures
            r == self.owner(),
    {
        self.debugger
    }

    /// The index of the next of the targets to fetch, given the number that
    /// LLDB reports, or `None` once the walk is over.
    pub fn next_index(&mut self, num_targets: usize) -> (r: Option<usize>)
        ensures
            yields_usize(r, cursor_yield(old(self).position(), num_targets as int)),
            final(self).position() == cursor_after(old(self).position(), num_targets as int),
            final(self).owner() == old(self).owner(),
    {
        step_usize(&mut self.idx, num_targets)
    }

    /// The number of targets still to come, exactly, as both bounds, or `None`
    /// when the walk stands past the number LLDB now reports (the
    /// collection shrank under it).
    pub fn size_hint(&self, num_targets: usize) -> (r: Option<(usize, Option<usize>)>)
        ensures
            match r {
                Some(h) => self.position() <= num_targets && h.0 == num_targets - self.position() && h.1
                    == Some(h.0),
                None => self.position() > num_targets,
            },
    {
        if self.idx <= num_targets {
            Some(remaining_usize(self.idx, num_targets))
        } else {
            None
        }
    }
}

/// Iterate over the active platforms of a debugger.
pub struct SBDebuggerPlatformIter<'d, R> {
    debugger: &'d SBDebugger<R>,
    idx: u32,
}

impl<'d, R> SBDebuggerPlatformIter<'d, R> {
    /// How many platforms the walk has handed out so far.
    pub closed spec fn position(&self) -> int {
        self.idx as int
    }

    /// The debugger whose platforms are walked.
    pub closed spec fn owner(&self) -> &'d SBDebugger<R> {
        self.debugger
    }

    /// The debugger whose platforms are walked.
    pub fn debugger(&self) -> (r: &'d SBDebugger<R>)
        ensures
            r == self.owner(),
    {
        self.debugger
    }

    /// The index of the next of the platforms to fetch, given the number that
    /// LLDB reports, or `None` once the walk is over.
    pub fn next_index(&mut self, num_platforms: u32) -> (r: Option<u32>)
        ensures
            yields_u32(r, cursor_yield(old(self).position(), num_platforms as int)),
            final(self).position() == cursor_after(old(self).position(), num_platforms as int),
            final(self).owner() == old(self).owner(),
    {
        step_u32(&mut self.idx, num_platforms)
    }

    /// The number of platforms still to come, exactly, as both bounds, or `None`
    /// when the walk stands past the number LLDB now reports (the
    /// collection shrank under it).
    pub fn size_hint(&self, num_platforms: u32) -> (r: Option<(usize, Option<usize>)>)
        ensures
            match r {
                Some(h) => self.position() <= num_platforms && h.0 == num_platforms - self.position() && h.1
                    == Some(h.0),
                None => self.position() > num_platforms,
            },
    {
        if self.idx <= num_platforms {
            Some(remaining_u32(self.idx, num_platforms))
        } else {
            None
        }
    }
}

/// Iterate over the available platforms of a debugger.
pub struct SBDebuggerAvailablePlatformIter<'d, R> {
    debugger: &'d SBDebugger<R>,
    idx: u32,
}

impl<'d, R> SBDebuggerAvailablePlatformIter<'d, R> {
    /// How many available platforms the walk has handed out so far.
    pub closed spec fn position(&self) -> int {
        self.idx as int
    }

    /// The debugger whose available platforms are walked.
    pub closed spec fn owner(&self) -> &'d SBDebugger<R> {
        self.debugger
    }

    /// The debugger whose available platforms are walked.
    pub fn debugger(&self) -> (r: &'d SBDebugger<R>)
        ensures
            r == self.owner(),
    {
        self.debugger
    }

    /// The index of the next of the available platforms to fetch, given the number that
    /// LLDB reports, or `None` once the walk is over.
    pub fn next_index(&mut self, num_available_platforms: u32) -> (r: Option<u32>)
        ensures
            yields_u32(r, cursor_yield(old(self).position(), num_available_platforms as int)),
            final(self).position() == cursor_after(old(self).position(), num_available_platforms as int),
            final(self).owner() == old(self).owner(),
    {
        step_u32(&mut self.idx, num_available_platforms)
    }

    /// The number of available platforms still to come, exactly, as both bounds, or `None`
    /// when the walk stands past the number LLDB now reports (the
    /// collection shrank under it).
    pub fn size_hint(&self, num_available_platforms: u32) -> (r: Option<(usize, Option<usize>)>)
        ensures
            match r {
                Some(h) => self.position() <= num_available_platforms && h.0 == num_available_platforms - self.position() && h.1
                    == Some(h.0),
                None => self.position() > num_available_platforms,
            },
    {
        if self.idx <= num_available_platforms {
            Some(remaining_u32(self.idx, num_available_platforms))
        } else {
            None
        }
    }
}

} // verus!
