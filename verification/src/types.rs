//! Types.

use vstd::prelude::*;

verus! {

/// A type.
#[derive(Clone, Debug)]
pub struct SBType<R> {
    /// The underlying raw reference to LLDB's type.
    pub raw: R,
}

impl<R> SBType<R> {
    /// Construct a new `SBType`.
    pub fn wrap(raw: R) -> (r: Self)
        ensures
            r.raw == raw,
    {
        SBType { raw }
    }

    /// Construct a new `Some(SBType)` when LLDB reports `raw` valid, or
    /// `None`.
    pub fn maybe_wrap(raw: R, is_valid: bool) -> (r: Option<Self>)
        ensures
            r is Some <==> is_valid,
            r matches Some(w) ==> w.raw == raw,
    {
        if is_valid {
            Some(SBType { raw })
        } else {
            None
        }
    }
}

} // verus!
