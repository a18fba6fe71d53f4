//! Threads of execution.

use vstd::prelude::*;
use crate::cursor::{cursor_after, cursor_yield, remaining_usize, step_usize, yields_usize};
use crate::event::SBEvent;

verus! {

/// A thread of execution.
///
/// The stack frames of a thread are visited with [`SBThread::frames()`],
/// innermost first.
#[derive(Clone, Debug)]
pub struct SBThread<R> {
    /// The underlying raw reference to LLDB's thread.
    pub raw: R,
}

impl<R> SBThread<R> {
    /// Construct a new `SBThread`.
    pub fn wrap(raw: R) -> (r: Self)
        ensures
            r.raw == raw,
    {
        SBThread { raw }
    }

    /// Construct a new `Some(SBThread)` when LLDB reports `raw` valid, or
    /// `None`.
    pub fn maybe_wrap(raw: R, is_valid: bool) -> (r: Option<Self>)
        ensures
            r is Some <==> is_valid,
            r matches Some(w) ==> w.raw == raw,
    {
        if is_valid {
            Some(SBThread { raw })
        } else {
            None
        }
    }

    /// Get an iterator over the frames known to this thread instance.
    pub fn frames(&self) -> (r: SBThreadFrameIter<'_, R>)
        ensures
            r.position() == 0,
            *r.owner() == *self,
    {
        SBThreadFrameIter { thread: self, idx: 0 }
    }

    /// View `event` as a thread event when LLDB reports that it is one.
    pub fn event_as_thread_event<'e>(event: &'e SBEvent<R>, is_thread_event: bool) -> (r: Option<
        SBThreadEvent<'e, R>,
    >)
        ensures
            r is Some <==> is_thread_event,
            r matches Some(e) ==> *e.spec_event() == *event,
    {
        if is_thread_event {
            Some(SBThreadEvent::new(event))
        } else {
            None
        }
    }
}

/// Iterate over the frames in a thread.
pub struct SBThreadFrameIter<'d, R> {
    thread: &'d SBThread<R>,
    idx: usize,
}

impl<'d, R> SBThreadFrameIter<'d, R> {
    /// How many frames the walk has handed out so far.
    pub closed spec fn position(&self) -> int {
        self.idx as int
    }

    /// The thread whose frames are walked.
    pub closed spec fn owner(&self) -> &'d SBThread<R> {
        self.thread
    }

    /// The thread whose frames are walked.
    pub fn thread(&self) -> (r: &'d SBThread<R>)
        ensures
            r == self.owner(),
    {
        self.thread
    }

    /// The index of the next of the frames to fetch, given the number that
    /// LLDB reports, or `None` once the walk is over.
    pub fn next_index(&mut self, num_frames: usize) -> (r: Option<usize>)
        ensures
            yields_usize(r, cursor_yield(old(self).position(), num_frames as int)),
            final(self).position() == cursor_after(old(self).position(), num_frames as int),
            final(self).owner() == old(self).owner(),
    {
        step_usize(&mut self.idx, num_frames)
    }

    /// The number of frames still to come, exactly, as both bounds, or `None`
    /// when the walk stands past the number LLDB now reports (the
    /// collection shrank under it).
    pub fn size_hint(&self, num_frames: usize) -> (r: Option<(usize, Option<usize>)>)
        ensures
            match r {
                Some(h) => self.position() <= num_frames && h.0 == num_frames - self.position() && h.1
                    == Some(h.0),
                None => self.position() > num_frames,
            },
    {
        if self.idx <= num_frames {
            Some(remaining_usize(self.idx, num_frames))
        } else {
            None
        }
    }
}

/// A thread event: what a thread broadcasts when it changes.
pub struct SBThreadEvent<'e, R> {
    event: &'e SBEvent<R>,
}

impl<'e, R> SBThreadEvent<'e, R> {
    /// The event viewed as a thread event.
    pub closed spec fn spec_event(&self) -> &'e SBEvent<R> {
        self.event
    }

    /// View `event` as a thread event.
    pub fn new(event: &'e SBEvent<R>) -> (r: Self)
        ensures
            *r.spec_event() == *event,
    {
        SBThreadEvent { event }
    }

    /// The event viewed as a thread event.
    pub fn event(&self) -> (r: &'e SBEvent<R>)
        ensures
            r == self.spec_event(),
    {
        self.event
    }
}

} // verus!
