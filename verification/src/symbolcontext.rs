//! Symbol contexts.

use vstd::prelude::*;

verus! {

/// A container that stores various debugger related info.
#[derive(Clone, Debug)]
pub struct SBSymbolContext<R> {
    /// The underlying raw reference to LLDB's symbol context.
    pub raw: R,
}

impl<R> SBSymbolContext<R> {
    /// Construct a new `SBSymbolContext`.
    pub fn wrap(raw: R) -> (r: Self)
        ensures
            r.raw == raw,
    {
        SBSymbolContext { raw }
    }

    /// Construct a new `Some(SBSymbolContext)` when LLDB reports `raw` valid, or
    /// `None`.
    pub fn maybe_wrap(raw: R, is_valid: bool) -> (r: Option<Self>)
        ensures
            r is Some <==> is_valid,
            r matches Some(w) ==> w.raw == raw,
    {
        if is_valid {
            Some(SBSymbolContext { raw })
        } else {
            None
        }
    }
}

} // verus!
