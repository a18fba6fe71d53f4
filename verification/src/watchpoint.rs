//! Watchpoints.

use vstd::prelude::*;

verus! {

/// An instance of a watch point for a specific target program.
///
/// A watchpoint is determined by the address and the byte size that resulted
/// in this particular instantiation. Each watchpoint has its settable options.
#[derive(Clone, Debug)]
pub struct SBWatchpoint<R> {
    /// The underlying raw reference to LLDB's watchpoint.
    pub raw: R,
}

impl<R> SBWatchpoint<R> {
    /// Construct a new `SBWatchpoint`.
    pub fn wrap(raw: R) -> (r: Self)
        ensures
            r.raw == raw,
    {
        SBWatchpoint { raw }
    }

    /// Construct a new `Some(SBWatchpoint)` when LLDB reports `raw` valid, or
    /// `None`.
    pub fn maybe_wrap(raw: R, is_valid: bool) -> (r: Option<Self>)
        ensures
            r is Some <==> is_valid,
            r matches Some(w) ==> w.raw == raw,
    {
        if is_valid {
            Some(SBWatchpoint { raw })
        } else {
            None
        }
    }

    /// The index of the hardware register used by this watchpoint, given
    /// the index LLDB reports (`-1` when there is none).
    pub fn hardware_index(&self, index: i32) -> (r: Option<i32>)
        ensures
            r == (if index == -1 { None::<i32> } else { Some(index) }),
    {
        if index == -1 {
            None
        } else {
            Some(index)
        }
    }
}

} // verus!
