//! Platforms.

use vstd::prelude::*;

verus! {

/// A platform that can represent the current host or a remote host debug
/// platform.
#[derive(Clone, Debug)]
pub struct SBPlatform<R> {
    /// The underlying raw reference to LLDB's platform.
    pub raw: R,
}

impl<R> SBPlatform<R> {
    /// Construct a new `SBPlatform`.
    pub fn wrap(raw: R) -> (r: Self)
        ensures
            r.raw == raw,
    {
        SBPlatform { raw }
    }

    /// Construct a new `Some(SBPlatform)` when LLDB reports `raw` valid, or
    /// `None`.
    pub fn maybe_wrap(raw: R, is_valid: bool) -> (r: Option<Self>)
        ensures
            r is Some <==> is_valid,
            r matches Some(w) ==> w.raw == raw,
    {
        if is_valid {
            Some(SBPlatform { raw })
        } else {
            None
        }
    }
}

} // verus!
