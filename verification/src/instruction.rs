//! Machine instructions.

use vstd::prelude::*;

verus! {

/// A machine instruction.
#[derive(Clone, Debug)]
pub struct SBInstruction<R> {
    /// The underlying raw reference to LLDB's instruction.
    pub raw: R,
}

impl<R> SBInstruction<R> {
    /// Construct a new `SBInstruction`.
    pub fn wrap(raw: R) -> (r: Self)
        ensures
            r.raw == raw,
    {
        SBInstruction { raw }
    }

    /// Construct a new `Some(SBInstruction)` when LLDB reports `raw` valid, or
    /// `None`.
    pub fn maybe_wrap(raw: R, is_valid: bool) -> (r: Option<Self>)
        ensures
            r is Some <==> is_valid,
            r matches Some(w) ==> w.raw == raw,
    {
        if is_valid {
            Some(SBInstruction { raw })
        } else {
            None
        }
    }
}

} // verus!
