//! Configuration for attaching to a process.

use vstd::prelude::*;

verus! {

/// Configuration for attaching to a process.
#[derive(Clone, Debug)]
pub struct SBAttachInfo<R> {
    /// The underlying raw reference to LLDB's attach configuration.
    pub raw: R,
}

impl<R> SBAttachInfo<R> {
    /// Construct a new `SBAttachInfo`.
    pub fn wrap(raw: R) -> (r: Self)
        ensures
            r.raw == raw,
    {
        SBAttachInfo { raw }
    }

    /// The user ID to attach with, when LLDB reports it set (`is_valid`).
    pub fn user_id(&self, is_valid: bool, user_id: u32) -> (r: Option<u32>)
        ensures
            r == (if is_valid { Some(user_id) } else { None::<u32> }),
    {
        if is_valid {
            Some(user_id)
        } else {
            None
        }
    }

    /// The group ID to attach with, when LLDB reports it set (`is_valid`).
    pub fn group_id(&self, is_valid: bool, group_id: u32) -> (r: Option<u32>)
        ensures
            r == (if is_valid { Some(group_id) } else { None::<u32> }),
    {
        if is_valid {
            Some(group_id)
        } else {
            None
        }
    }

    /// The effective user ID to attach with, when LLDB reports it set (`is_valid`).
    pub fn effective_user_id(&self, is_valid: bool, effective_user_id: u32) -> (r: Option<u32>)
        ensures
            r == (if is_valid { Some(effective_user_id) } else { None::<u32> }),
    {
        if is_valid {
            Some(effective_user_id)
        } else {
            None
        }
    }

    /// The effective group ID to attach with, when LLDB reports it set (`is_valid`).
    pub fn effective_group_id(&self, is_valid: bool, effective_group_id: u32) -> (r: Option<u32>)
        ensures
            r == (if is_valid { Some(effective_group_id) } else { None::<u32> }),
    {
        if is_valid {
            Some(effective_group_id)
        } else {
            None
        }
    }

    /// The process ID of the parent of the process to attach to, when LLDB reports it set (`is_valid`).
    pub fn parent_process_id(&self, is_valid: bool, parent_process_id: u64) -> (r: Option<u64>)
        ensures
            r == (if is_valid { Some(parent_process_id) } else { None::<u64> }),
    {
        if is_valid {
            Some(parent_process_id)
        } else {
            None
        }
    }
}

} // verus!
