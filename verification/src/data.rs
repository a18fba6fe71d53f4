//! Blocks of data.

use vstd::prelude::*;

verus! {

/// A block of data.
#[derive(Clone, Debug)]
pub struct SBData<R> {
    /// The underlying raw reference to LLDB's data.
    pub raw: R,
}

impl<R> SBData<R> {
    /// Construct a new `SBData`.
    pub fn wrap(raw: R) -> (r: Self)
        ensures
            r.raw == raw,
    {
        SBData { raw }
    }

    /// Construct a new `Some(SBData)` when LLDB reports `raw` valid, or
    /// `None`.
    pub fn maybe_wrap(raw: R, is_valid: bool) -> (r: Option<Self>)
        ensures
            r is Some <==> is_valid,
            r matches Some(w) ==> w.raw == raw,
    {
        if is_valid {
            Some(SBData { raw })
        } else {
            None
        }
    }
}

} // verus!
