//! Events broadcast by LLDB.

use vstd::prelude::*;

verus! {

/// An event.
#[derive(Clone, Debug)]
pub struct SBEvent<R> {
    /// The underlying raw reference to LLDB's event.
    pub raw: R,
}

impl<R> SBEvent<R> {
    /// Construct a new `SBEvent`.
    pub fn wrap(raw: R) -> (r: Self)
        ensures
            r.raw == raw,
    {
        SBEvent { raw }
    }

    /// Construct a new `Some(SBEvent)` when LLDB reports `raw` valid, or
    /// `None`.
    pub fn maybe_wrap(raw: R, is_valid: bool) -> (r: Option<Self>)
        ensures
            r is Some <==> is_valid,
            r matches Some(w) ==> w.raw == raw,
    {
        if is_valid {
            Some(SBEvent { raw })
        } else {
            None
        }
    }
}

} // verus!
