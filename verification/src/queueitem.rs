//! Work items on libdispatch queues.

use vstd::prelude::*;

verus! {

/// A work item enqueued on a libdispatch aka Grand Central Dispatch (GCD)
/// queue. Most often, this will be a function or block.
#[derive(Clone, Debug)]
pub struct SBQueueItem<R> {
    /// The underlying raw reference to LLDB's queue item.
    pub raw: R,
}

impl<R> SBQueueItem<R> {
    /// Construct a new `SBQueueItem`.
    pub fn wrap(raw: R) -> (r: Self)
        ensures
            r.raw == raw,
    {
        SBQueueItem { raw }
    }

    /// Construct a new `Some(SBQueueItem)` when LLDB reports `raw` valid, or
    /// `None`.
    pub fn maybe_wrap(raw: R, is_valid: bool) -> (r: Option<Self>)
        ensures
            r is Some <==> is_valid,
            r matches Some(w) ==> w.raw == raw,
    {
        if is_valid {
            Some(SBQueueItem { raw })
        } else {
            None
        }
    }
}

} // verus!
