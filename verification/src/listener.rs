//! Event listeners.

use vstd::prelude::*;

verus! {

/// Listens for events broadcast by an `SBBroadcaster`.
#[derive(Clone, Debug)]
pub struct SBListener<R> {
    /// The underlying raw reference to LLDB's listener.
    pub raw: R,
}

impl<R> SBListener<R> {
    /// Construct a new `SBListener`.
    pub fn wrap(raw: R) -> (r: Self)
        ensures
            r.raw == raw,
    {
        SBListener { raw }
    }

    /// Construct a new `Some(SBListener)` when LLDB reports `raw` valid, or
    /// `None`.
    pub fn maybe_wrap(raw: R, is_valid: bool) -> (r: Option<Self>)
        ensures
            r is Some <==> is_valid,
            r matches Some(w) ==> w.raw == raw,
    {
        if is_valid {
            Some(SBListener { raw })
        } else {
            None
        }
    }
}

} // verus!
