//! Targets: the programs running under the debugger.

use vstd::prelude::*;
use crate::cursor::{cursor_after, cursor_yield, remaining_usize, step_usize, yields_usize};
use crate::event::SBEvent;

verus! {

/// The target program running under the debugger.
///
/// A target holds the breakpoints and watchpoints set on it, visited with
/// [`SBTarget::breakpoints()`] and [`SBTarget::watchpoints()`].
#[derive(Clone, Debug)]
pub struct SBTarget<R> {
    /// The underlying raw reference to LLDB's target.
    pub raw: R,
}

impl<R> SBTarget<R> {
    /// Construct a new `SBTarget`.
    pub fn wrap(raw: R) -> (r: Self)
        ensures
            r.raw == raw,
    {
        SBTarget { raw }
    }

    /// Construct a new `Some(SBTarget)` when LLDB reports `raw` valid, or
    /// `None`.
    pub fn maybe_wrap(raw: R, is_valid: bool) -> (r: Option<Self>)
        ensures
            r is Some <==> is_valid,
            r matches Some(w) ==> w.raw == raw,
    {
        if is_valid {
            Some(SBTarget { raw })
        } else {
            None
        }
    }

    /// Get an iterator over the breakpoints known to this target instance.
    pub fn breakpoints(&self) -> (r: SBTargetBreakpointIter<'_, R>)
        ensures
            r.position() == 0,
            *r.owner() == *self,
    {
        SBTargetBreakpointIter { target: self, idx: 0 }
    }

    /// Get an iterator over the watchpoints known to this target instance.
    pub fn watchpoints(&self) -> (r: SBTargetWatchpointIter<'_, R>)
        ensures
            r.position() == 0,
            *r.owner() == *self,
    {
        SBTargetWatchpointIter { target: self, idx: 0 }
    }

    /// View `event` as a target event when LLDB reports that it is one.
    pub fn event_as_target_event<'e>(event: &'e SBEvent<R>, is_target_event: bool) -> (r: Option<
        SBTargetEvent<'e, R>,
    >)
        ensures
            r is Some <==> is_target_event,
            r matches Some(e) ==> *e.spec_event() == *event,
    {
        if is_target_event {
            Some(SBTargetEvent::new(event))
        } else {
            None
        }
    }
}

/// Iterate over the breakpoints in a target.
pub struct SBTargetBreakpointIter<'d, R> {
    target: &'d SBTarget<R>,
    idx: usize,
}

impl<'d, R> SBTargetBreakpointIter<'d, R> {
    /// How many breakpoints the walk has handed out so far.
    pub closed spec fn position(&self) -> int {
        self.idx as int
    }

    /// The target whose breakpoints are walked.
    pub closed spec fn owner(&self) -> &'d SBTarget<R> {
        self.target
    }

    /// The target whose breakpoints are walked.
    pub fn target(&self) -> (r: &'d SBTarget<R>)
        ensures
            r == self.owner(),
    {
        self.target
    }

    /// The index of the next of the breakpoints to fetch, given the number that
    /// LLDB reports, or `None` once the walk is over.
    pub fn next_index(&mut self, num_breakpoints: usize) -> (r: Option<usize>)
        ensures
            yields_usize(r, cursor_yield(old(self).position(), num_breakpoints as int)),
            final(self).position() == cursor_after(old(self).position(), num_breakpoints as int),
            final(self).owner() == old(self).owner(),
    {
        step_usize(&mut self.idx, num_breakpoints)
    }

    /// The number of breakpoints still to come, exactly, as both bounds, or `None`
    /// when the walk stands past the number LLDB now reports (the
    /// collection shrank under it).
    pub fn size_hint(&self, num_breakpoints: usize) -> (r: Option<(usize, Option<usize>)>)
        ensures
            match r {
                Some(h) => self.position() <= num_breakpoints && h.0 == num_breakpoints - self.position() && h.1
                    == Some(h.0),
                None => self.position() > num_breakpoints,
            },
    {
        if self.idx <= num_breakpoints {
            Some(remaining_usize(self.idx, num_breakpoints))
        } else {
            None
        }
    }
}

/// Iterate over the watchpoints in a target.
pub struct SBTargetWatchpointIter<'d, R> {
    target: &'d SBTarget<R>,
    idx: usize,
}

impl<'d, R> SBTargetWatchpointIter<'d, R> {
    /// How many watchpoints the walk has handed out so far.
    pub closed spec fn position(&self) -> int {
        self.idx as int
    }

    /// The target whose watchpoints are walked.
    pub closed spec fn owner(&self) -> &'d SBTarget<R> {
        self.target
    }

    /// The target whose watchpoints are walked.
    pub fn target(&self) -> (r: &'d SBTarget<R>)
        ensures
            r == self.owner(),
    {
        self.target
    }

    /// The index of the next of the watchpoints to fetch, given the number that
    /// LLDB reports, or `None` once the walk is over.
    pub fn next_index(&mut self, num_watchpoints: usize) -> (r: Option<usize>)
        ensures
            yields_usize(r, cursor_yield(old(self).position(), num_watchpoints as int)),
            final(self).position() == cursor_after(old(self).position(), num_watchpoints as int),
            final(self).owner() == old(self).owner(),
    {
        step_usize(&mut self.idx, num_watchpoints)
    }

    /// The number of watchpoints still to come, exactly, as both bounds, or `None`
    /// when the walk stands past the number LLDB now reports (the
    /// collection shrank under it).
    pub fn size_hint(&self, num_watchpoints: usize) -> (r: Option<(usize, Option<usize>)>)
        ensures
            match r {
                Some(h) => self.position() <= num_watchpoints && h.0 == num_watchpoints - self.position() && h.1
                    == Some(h.0),
                None => self.position() > num_watchpoints,
            },
    {
        if self.idx <= num_watchpoints {
            Some(remaining_usize(self.idx, num_watchpoints))
        } else {
            None
        }
    }
}

/// A target event: what a target broadcasts when its modules or breakpoints change.
pub struct SBTargetEvent<'e, R> {
    event: &'e SBEvent<R>,
}

impl<'e, R> SBTargetEvent<'e, R> {
    /// The event viewed as a target event.
    pub closed spec fn spec_event(&self) -> &'e SBEvent<R> {
        self.event
    }

    /// View `event` as a target event.
    pub fn new(event: &'e SBEvent<R>) -> (r: Self)
        ensures
            *r.spec_event() == *event,
    {
        SBTargetEvent { event }
    }

    /// The event viewed as a target event.
    pub fn event(&self) -> (r: &'e SBEvent<R>)
        ensures
            r == self.spec_event(),
    {
        self.event
    }

    /// Iterate over the modules this event concerns.
    pub fn modules(&'e self) -> (r: SBTargetEventModuleIter<'e, R>)
        ensures
            r.position() == 0,
            *r.owner() == *self,
    {
        SBTargetEventModuleIter { event: self, idx: 0 }
    }
}

/// Iterate over the modules in a target event.
pub struct SBTargetEventModuleIter<'d, R> {
    event: &'d SBTargetEvent<'d, R>,
    idx: usize,
}

impl<'d, R> SBTargetEventModuleIter<'d, R> {
    /// How many modules the walk has handed out so far.
    pub closed spec fn position(&self) -> int {
        self.idx as int
    }

    /// The event whose modules are walked.
    pub closed spec fn owner(&self) -> &'d SBTargetEvent<'d, R> {
        self.event
    }

    /// The event whose modules are walked.
    pub fn event(&self) -> (r: &'d SBTargetEvent<'d, R>)
        ensures
            r == self.owner(),
    {
        self.event
    }

    /// The index of the next module to fetch, given the number of modules
    /// LLDB reports, or `None` once the walk is over.
    pub fn next_index(&mut self, num_modules: usize) -> (r: Option<usize>)
        ensures
            yields_usize(r, cursor_yield(old(self).position(), num_modules as int)),
            final(self).position() == cursor_after(old(self).position(), num_modules as int),
            final(self).owner() == old(self).owner(),
    {
        step_usize(&mut self.idx, num_modules)
    }

    /// The number of modules still to come, exactly, as both bounds, or `None`
    /// when the walk stands past the number LLDB now reports.
    pub fn size_hint(&self, num_modules: usize) -> (r: Option<(usize, Option<usize>)>)
        ensures
            match r {
                Some(h) => self.position() <= num_modules && h.0 == num_modules - self.position()
                    && h.1 == Some(h.0),
                None => self.position() > num_modules,
            },
    {
        if self.idx <= num_modules {
            Some(remaining_usize(self.idx, num_modules))
        } else {
            None
        }
    }
}

} // verus!
