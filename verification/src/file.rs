//! Files opened through LLDB.

use vstd::prelude::*;

verus! {

/// A file opened through LLDB.
#[derive(Clone, Debug)]
pub struct SBFile<R> {
    /// The underlying raw reference to LLDB's file.
    pub raw: R,
}

impl<R> SBFile<R> {
    /// Construct a new `SBFile`.
    pub fn wrap(raw: R) -> (r: Self)
        ensures
            r.raw == raw,
    {
        SBFile { raw }
    }

    /// Construct a new `Some(SBFile)` when LLDB reports `raw` valid, or
    /// `None`.
    pub fn maybe_wrap(raw: R, is_valid: bool) -> (r: Option<Self>)
        ensures
            r is Some <==> is_valid,
            r matches Some(w) ==> w.raw == raw,
    {
        if is_valid {
            Some(SBFile { raw })
        } else {
            None
        }
    }
}

} // verus!
