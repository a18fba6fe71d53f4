//! libdispatch queues.

use vstd::prelude::*;
use crate::cursor::{cursor_after, cursor_yield, remaining_usize, step_usize, yields_usize};

verus! {

/// A libdispatch (aka Grand Central Dispatch) queue.
///
/// A program using libdispatch will create queues, put work items (functions,
/// blocks) on the queues. The system will create / reassign pthreads to
/// execute the work items for the queues. A serial queue will be associated
/// with a single thread (or possibly no thread, if it is not doing any work).
/// A concurrent queue may be associated with multiple threads.
#[derive(Clone, Debug)]
pub struct SBQueue<R> {
    /// The underlying raw reference to LLDB's queue.
    pub raw: R,
}

impl<R> SBQueue<R> {
    /// Construct a new `SBQueue`.
    pub fn wrap(raw: R) -> (r: Self)
        ensures
            r.raw == raw,
    {
        SBQueue { raw }
    }

    /// Construct a new `Some(SBQueue)` when LLDB reports `raw` valid, or
    /// `None`.
    pub fn maybe_wrap(raw: R, is_valid: bool) -> (r: Option<Self>)
        ensures
            r is Some <==> is_valid,
            r matches Some(w) ==> w.raw == raw,
    {
        if is_valid {
            Some(SBQueue { raw })
        } else {
            None
        }
    }

    /// Get an iterator over the threads associated with this queue.
    pub fn threads(&self) -> (r: SBQueueThreadIter<'_, R>)
        ensures
            r.position() == 0,
            *r.owner() == *self,
    {
        SBQueueThreadIter { queue: self, idx: 0 }
    }

    /// Get an iterator over the pending work items for this queue.
    pub fn pending_items(&self) -> (r: SBQueueQueueItemIter<'_, R>)
        ensures
            r.position() == 0,
            *r.owner() == *self,
    {
        SBQueueQueueItemIter { queue: self, idx: 0 }
    }
}

/// Iterate over the threads associated with a queue.
pub struct SBQueueThreadIter<'d, R> {
    queue: &'d SBQueue<R>,
    idx: usize,
}

impl<'d, R> SBQueueThreadIter<'d, R> {
    /// How many threads the walk has handed out so far.
    pub closed spec fn position(&self) -> int {
        self.idx as int
    }

    /// The queue whose threads are walked.
    pub closed spec fn owner(&self) -> &'d SBQueue<R> {
        self.queue
    }

    /// The queue whose threads are walked.
    pub fn queue(&self) -> (r: &'d SBQueue<R>)
        ensures
            r == self.owner(),
    {
        self.queue
    }

    /// The index of the next of the threads to fetch, given the number that
    /// LLDB reports, or `None` once the walk is over.
    pub fn next_index(&mut self, num_threads: usize) -> (r: Option<usize>)
        ensures
            yields_usize(r, cursor_yield(old(self).position(), num_threads as int)),
            final(self).position() == cursor_after(old(self).position(), num_threads as int),
            final(self).owner() == old(self).owner(),
    {
        step_usize(&mut self.idx, num_threads)
    }

    /// The number of threads still to come, exactly, as both bounds, or `None`
    /// when the walk stands past the number LLDB now reports (the
    /// collection shrank under it).
    pub fn size_hint(&self, num_threads: usize) -> (r: Option<(usize, Option<usize>)>)
        ensures
            match r {
                Some(h) => self.position() <= num_threads && h.0 == num_threads - self.position() && h.1
                    == Some(h.0),
                None => self.position() > num_threads,
            },
    {
        if self.idx <= num_threads {
            Some(remaining_usize(self.idx, num_threads))
        } else {
            None
        }
    }
}

/// Iterate over the pending work items of a queue.
pub struct SBQueueQueueItemIter<'d, R> {
    queue: &'d SBQueue<R>,
    idx: usize,
}

impl<'d, R> SBQueueQueueItemIter<'d, R> {
    /// How many pending items the walk has handed out so far.
    pub closed spec fn position(&self) -> int {
        self.idx as int
    }

    /// The queue whose pending items are walked.
    pub closed spec fn owner(&self) -> &'d SBQueue<R> {
        self.queue
    }

    /// The queue whose pending items are walked.
    pub fn queue(&self) -> (r: &'d SBQueue<R>)
        ensures
            r == self.owner(),
    {
        self.queue
    }

    /// The index of the next of the pending items to fetch, given the number that
    /// LLDB reports, or `None` once the walk is over.
    pub fn next_index(&mut self, num_pending_items: usize) -> (r: Option<usize>)
        ensures
            yields_usize(r, cursor_yield(old(self).position(), num_pending_items as int)),
            final(self).position() == cursor_after(old(self).position(), num_pending_items as int),
            final(self).owner() == old(self).owner(),
    {
        step_usize(&mut self.idx, num_pending_items)
    }

    /// The number of pending items still to come, exactly, as both bounds, or `None`
    /// when the walk stands past the number LLDB now reports (the
    /// collection shrank under it).
    pub fn size_hint(&self, num_pending_items: usize) -> (r: Option<(usize, Option<usize>)>)
        ensures
            match r {
                Some(h) => self.position() <= num_pending_items && h.0 == num_pending_items - self.position() && h.1
                    == Some(h.0),
                None => self.position() > num_pending_items,
            },
    {
        if self.idx <= num_pending_items {
            Some(remaining_usize(self.idx, num_pending_items))
        } else {
            None
        }
    }
}

} // verus!
