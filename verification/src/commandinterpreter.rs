//! The command interpreter.

use vstd::prelude::*;

verus! {

/// LLDB's command interpreter.
#[derive(Clone, Debug)]
pub struct SBCommandInterpreter<R> {
    /// The underlying raw reference to LLDB's command interpreter.
    pub raw: R,
}

impl<R> SBCommandInterpreter<R> {
    /// Construct a new `SBCommandInterpreter`.
    pub fn wrap(raw: R) -> (r: Self)
        ensures
            r.raw == raw,
    {
        SBCommandInterpreter { raw }
    }
}

} // verus!
