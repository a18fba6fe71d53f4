//! Options for reading the variables of a frame.

use vstd::prelude::*;

verus! {

/// Which variables of a frame a query asks LLDB for: the settings that an
/// `SBVariablesOptions` carries into the query.
#[derive(Clone, Copy, Debug, PartialEq, Eq)]
pub struct VariableSelection {
    /// Whether the arguments of the frame's function are included.
    pub include_arguments: bool,
    /// Whether the local variables are included.
    pub include_locals: bool,
    /// Whether the static variables are included.
    pub include_statics: bool,
    /// Whether only the variables in scope at the frame's address are included.
    pub in_scope_only: bool,
}

/// Options for reading the variables of a frame.
#[derive(Clone, Debug)]
pub struct SBVariablesOptions<R> {
    /// The underlying raw reference to LLDB's variables options.
    pub raw: R,
}

impl<R> SBVariablesOptions<R> {
    /// Construct a new `SBVariablesOptions`.
    pub fn wrap(raw: R) -> (r: Self)
        ensures
            r.raw == raw,
    {
        SBVariablesOptions { raw }
    }

    /// Construct a new `Some(SBVariablesOptions)` when LLDB reports `raw` valid, or
    /// `None`.
    pub fn maybe_wrap(raw: R, is_valid: bool) -> (r: Option<Self>)
        ensures
            r is Some <==> is_valid,
            r matches Some(w) ==> w.raw == raw,
    {
        if is_valid {
            Some(SBVariablesOptions { raw })
        } else {
            None
        }
    }
}

} // verus!
