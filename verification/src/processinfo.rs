//! Information about processes.

use vstd::prelude::*;

verus! {

/// Information about a process.
#[derive(Clone, Debug)]
pub struct SBProcessInfo<R> {
    /// The underlying raw reference to LLDB's process information.
    pub raw: R,
}

impl<R> SBProcessInfo<R> {
    /// Construct a new `SBProcessInfo`.
    pub fn wrap(raw: R) -> (r: Self)
        ensures
            r.raw == raw,
    {
        SBProcessInfo { raw }
    }

    /// The user ID of the process, when LLDB reports it set (`is_valid`).
    pub fn user_id(&self, is_valid: bool, user_id: u32) -> (r: Option<u32>)
        ensures
            r == (if is_valid { Some(user_id) } else { None::<u32> }),
    {
        if is_valid {
            Some(user_id)
        } else {
            None
        }
    }

    /// The group ID of the process, when LLDB reports it set (`is_valid`).
    pub fn group_id(&self, is_valid: bool, group_id: u32) -> (r: Option<u32>)
        ensures
            r == (if is_valid { Some(group_id) } else { None::<u32> }),
    {
        if is_valid {
            Some(group_id)
        } else {
            None
        }
    }

    /// The effective user ID of the process, when LLDB reports it set (`is_valid`).
    pub fn effective_user_id(&self, is_valid: bool, effective_user_id: u32) -> (r: Option<u32>)
        ensures
            r == (if is_valid { Some(effective_user_id) } else { None::<u32> }),
    {
        if is_valid {
            Some(effective_user_id)
        } else {
            None
        }
    }

    /// The effective group ID of the process, when LLDB reports it set (`is_valid`).
    pub fn effective_group_id(&self, is_valid: bool, effective_group_id: u32) -> (r: Option<u32>)
        ensures
            r == (if is_valid { Some(effective_group_id) } else { None::<u32> }),
    {
        if is_valid {
            Some(effective_group_id)
        } else {
            None
        }
    }
}

} // verus!
