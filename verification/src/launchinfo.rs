//! Configuration for launching a process.

use vstd::prelude::*;
use crate::cursor::{cursor_after, cursor_yield, remaining_u32, step_u32, yields_u32};

verus! {

/// Configuration for launching a process.
#[derive(Clone, Debug)]
pub struct SBLaunchInfo<R> {
    /// The underlying raw reference to LLDB's launch configuration.
    pub raw: R,
}

impl<R> SBLaunchInfo<R> {
    /// Construct a new `SBLaunchInfo`.
    pub fn wrap(raw: R) -> (r: Self)
        ensures
            r.raw == raw,
    {
        SBLaunchInfo { raw }
    }

    /// Returns an iterator over the command line arguments.
    pub fn arguments(&self) -> (r: SBLaunchInfoArgumentsIter<'_, R>)
        ensures
            r.position() == 0,
            *r.owner() == *self,
    {
        SBLaunchInfoArgumentsIter { launch_info: self, idx: 0 }
    }

    /// The user ID to launch with, when LLDB reports it set (`is_valid`).
    pub fn user_id(&self, is_valid: bool, user_id: u32) -> (r: Option<u32>)
        ensures
            r == (if is_valid { Some(user_id) } else { None::<u32> }),
    {
        if is_valid {
            Some(user_id)
        } else {
            None
        }
    }

    /// The group ID to launch with, when LLDB reports it set (`is_valid`).
    pub fn group_id(&self, is_valid: bool, group_id: u32) -> (r: Option<u32>)
        ensures
            r == (if is_valid { Some(group_id) } else { None::<u32> }),
    {
        if is_valid {
            Some(group_id)
        } else {
            None
        }
    }
}

/// An iterator over the command line arguments of an `SBLaunchInfo`.
pub struct SBLaunchInfoArgumentsIter<'d, R> {
    launch_info: &'d SBLaunchInfo<R>,
    idx: u32,
}

impl<'d, R> SBLaunchInfoArgumentsIter<'d, R> {
    /// How many arguments the walk has handed out so far.
    pub closed spec fn position(&self) -> int {
        self.idx as int
    }

    /// The launch configuration whose arguments are walked.
    pub closed spec fn owner(&self) -> &'d SBLaunchInfo<R> {
        self.launch_info
    }

    /// The launch configuration whose arguments are walked.
    pub fn launch_info(&self) -> (r: &'d SBLaunchInfo<R>)
        ensures
            r == self.owner(),
    {
        self.launch_info
    }

    /// The index of the next of the arguments to fetch, given the number that
    /// LLDB reports, or `None` once the walk is over.
    pub fn next_index(&mut self, num_arguments: u32) -> (r: Option<u32>)
        ensures
            yields_u32(r, cursor_yield(old(self).position(), num_arguments as int)),
            final(self).position() == cursor_after(old(self).position(), num_arguments as int),
            final(self).owner() == old(self).owner(),
    {
        step_u32(&mut self.idx, num_arguments)
    }

    /// The number of arguments still to come, exactly, as both bounds, or `None`
    /// when the walk stands past the number LLDB now reports (the
    /// collection shrank under it).
    pub fn size_hint(&self, num_arguments: u32) -> (r: Option<(usize, Option<usize>)>)
        ensures
            match r {
                Some(h) => self.position() <= num_arguments && h.0 == num_arguments - self.position() && h.1
                    == Some(h.0),
                None => self.position() > num_arguments,
            },
    {
        if self.idx <= num_arguments {
            Some(remaining_u32(self.idx, num_arguments))
        } else {
            None
        }
    }
}

} // verus!
