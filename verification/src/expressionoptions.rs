//! Options for evaluating expressions.

use vstd::prelude::*;

verus! {

/// A container for options to use when evaluating expressions.
#[derive(Clone, Debug)]
pub struct SBExpressionOptions<R> {
    /// The underlying raw reference to LLDB's expression options.
    pub raw: R,
}

impl<R> SBExpressionOptions<R> {
    /// Construct a new `SBExpressionOptions`.
    pub fn wrap(raw: R) -> (r: Self)
        ensures
            r.raw == raw,
    {
        SBExpressionOptions { raw }
    }
}

} // verus!
