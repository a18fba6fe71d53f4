//! Line table entries.

use vstd::prelude::*;

verus! {

/// Specifies an association with a contiguous range of instructions and a
/// source file location.
#[derive(Clone, Debug)]
pub struct SBLineEntry<R> {
    /// The underlying raw reference to LLDB's line entry.
    pub raw: R,
}

impl<R> SBLineEntry<R> {
    /// Construct a new `SBLineEntry`.
    pub fn wrap(raw: R) -> (r: Self)
        ensures
            r.raw == raw,
    {
        SBLineEntry { raw }
    }

    /// Construct a new `Some(SBLineEntry)` when LLDB reports `raw` valid, or
    /// `None`.
    pub fn maybe(raw: R, is_valid: bool) -> (r: Option<Self>)
        ensures
            r is Some <==> is_valid,
            r matches Some(w) ==> w.raw == raw,
    {
        if is_valid {
            Some(SBLineEntry { raw })
        } else {
            None
        }
    }
}

} // verus!
