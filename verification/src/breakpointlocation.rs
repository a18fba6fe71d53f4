//! Breakpoint locations.

use vstd::prelude::*;

verus! {

/// One unique instance (by address) of a logical breakpoint.
///
/// A breakpoint location is defined by the breakpoint that produces it, and the
/// address that resulted in this particular instantiation. Each breakpoint
/// location has its settable options.
#[derive(Clone, Debug)]
pub struct SBBreakpointLocation<R> {
    /// The underlying raw reference to LLDB's breakpoint location.
    pub raw: R,
}

impl<R> SBBreakpointLocation<R> {
    /// Construct a new `SBBreakpointLocation`.
    pub fn wrap(raw: R) -> (r: Self)
        ensures
            r.raw == raw,
    {
        SBBreakpointLocation { raw }
    }

    /// Construct a new `Some(SBBreakpointLocation)` when LLDB reports `raw` valid, or
    /// `None`.
    pub fn maybe_wrap(raw: R, is_valid: bool) -> (r: Option<Self>)
        ensures
            r is Some <==> is_valid,
            r matches Some(w) ==> w.raw == raw,
    {
        if is_valid {
            Some(SBBreakpointLocation { raw })
        } else {
            None
        }
    }
}

} // verus!
