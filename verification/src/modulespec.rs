//! Module descriptions.

use vstd::prelude::*;

verus! {

/// A description of an `SBModule`.
#[derive(Clone, Debug)]
pub struct SBModuleSpec<R> {
    /// The underlying raw reference to LLDB's module description.
    pub raw: R,
}

impl<R> SBModuleSpec<R> {
    /// Construct a new `SBModuleSpec`.
    pub fn wrap(raw: R) -> (r: Self)
        ensures
            r.raw == raw,
    {
        SBModuleSpec { raw }
    }

    /// Construct a new `Some(SBModuleSpec)` when LLDB reports `raw` valid, or
    /// `None`.
    pub fn maybe_wrap(raw: R, is_valid: bool) -> (r: Option<Self>)
        ensures
            r is Some <==> is_valid,
            r matches Some(w) ==> w.raw == raw,
    {
        if is_valid {
            Some(SBModuleSpec { raw })
        } else {
            None
        }
    }
}

} // verus!
