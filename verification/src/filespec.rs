//! File specifications.

use vstd::prelude::*;

verus! {

/// A file specification that divides the path into a directory and basename.
#[derive(Clone, Debug)]
pub struct SBFileSpec<R> {
    /// The underlying raw reference to LLDB's file specification.
    pub raw: R,
}

impl<R> SBFileSpec<R> {
    /// Construct a new `SBFileSpec`.
    pub fn wrap(raw: R) -> (r: Self)
        ensures
            r.raw == raw,
    {
        SBFileSpec { raw }
    }

    /// Construct a new `Some(SBFileSpec)` when LLDB reports `raw` valid, or
    /// `None`.
    pub fn maybe_wrap(raw: R, is_valid: bool) -> (r: Option<Self>)
        ensures
            r is Some <==> is_valid,
            r matches Some(w) ==> w.raw == raw,
    {
        if is_valid {
            Some(SBFileSpec { raw })
        } else {
            None
        }
    }
}

} // verus!
