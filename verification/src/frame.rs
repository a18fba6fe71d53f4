//! Stack frames.

use vstd::prelude::*;
use crate::variablesoptions::VariableSelection;

verus! {

/// One of the stack frames associated with a thread.
///
/// Frame `0` is the innermost frame of its thread; the frame that called the
/// frame with index `i` has index `i + 1`.
#[derive(Clone, Debug)]
pub struct SBFrame<R> {
    /// The underlying raw reference to LLDB's frame.
    pub raw: R,
}

impl<R> SBFrame<R> {
    /// Construct a new `SBFrame`.
    pub fn wrap(raw: R) -> (r: Self)
        ensures
            r.raw == raw,
    {
        SBFrame { raw }
    }

    /// Construct a new `Some(SBFrame)` when LLDB reports `raw` valid, or
    /// `None`.
    pub fn maybe_wrap(raw: R, is_valid: bool) -> (r: Option<Self>)
        ensures
            r is Some <==> is_valid,
            r matches Some(w) ==> w.raw == raw,
    {
        if is_valid {
            Some(SBFrame { raw })
        } else {
            None
        }
    }

    /// The canonical frame address for this stack frame, given the address
    /// LLDB reports (`u64::MAX` when there is none).
    pub fn cfa(&self, cfa: u64) -> (r: Option<u64>)
        ensures
            r == (if cfa != u64::MAX { Some(cfa) } else { None::<u64> }),
    {
        if cfa != u64::MAX {
            Some(cfa)
        } else {
            None
        }
    }

    /// The selection that reads all variables in this stack frame: its
    /// arguments, locals and statics, those in scope only.
    pub fn all_variables(&self) -> (r: VariableSelection)
        ensures
            r == (VariableSelection {
                include_arguments: true,
                include_locals: true,
                include_statics: true,
                in_scope_only: true,
            }),
    {
        VariableSelection {
            include_arguments: true,
            include_locals: true,
            include_statics: true,
            in_scope_only: true,
        }
    }

    /// The selection that reads the argument variables in this stack frame.
    pub fn arguments(&self) -> (r: VariableSelection)
        ensures
            r == (VariableSelection {
                include_arguments: true,
                include_locals: false,
                include_statics: false,
                in_scope_only: false,
            }),
    {
        VariableSelection {
            include_arguments: true,
            include_locals: false,
            include_statics: false,
            in_scope_only: false,
        }
    }

    /// The selection that reads the local variables in this stack frame.
    pub fn locals(&self) -> (r: VariableSelection)
        ensures
            r == (VariableSelection {
                include_arguments: false,
                include_locals: true,
                include_statics: false,
                in_scope_only: false,
            }),
    {
        VariableSelection {
            include_arguments: false,
            include_locals: true,
            include_statics: false,
            in_scope_only: false,
        }
    }

    /// The selection that reads the static variables in this stack frame.
    pub fn statics(&self) -> (r: VariableSelection)
        ensures
            r == (VariableSelection {
                include_arguments: false,
                include_locals: false,
                include_statics: true,
                in_scope_only: false,
            }),
    {
        VariableSelection {
            include_arguments: false,
            include_locals: false,
            include_statics: true,
            in_scope_only: false,
        }
    }

    /// The index, among the frames of its thread, of the frame that called
    /// this one, given this frame's index and the number of frames in its
    /// thread, or `None` when there is no such frame: this is the outermost
    /// frame, or the index is not one a frame can have (an invalid frame
    /// reports `u32::MAX`).
    pub fn parent_frame_index(&self, frame_id: u32, num_frames: u32) -> (r: Option<u32>)
        ensures
            r == (if frame_id + 1 < num_frames { Some((frame_id + 1) as u32) } else { None::<u32> }),
    {
        if frame_id < u32::MAX && frame_id + 1 < num_frames {
            Some(frame_id + 1)
        } else {
            None
        }
    }
}

} // verus!
