//! Symbols.

use vstd::prelude::*;

verus! {

/// The symbol possibly associated with a stack frame.
///
/// Disassembling a symbol asks LLDB for the flavor named by
/// [`crate::DisassemblyFlavor::name()`].
#[derive(Clone, Debug)]
pub struct SBSymbol<R> {
    /// The underlying raw reference to LLDB's symbol.
    pub raw: R,
}

impl<R> SBSymbol<R> {
    /// Construct a new `SBSymbol`.
    pub fn wrap(raw: R) -> (r: Self)
        ensures
            r.raw == raw,
    {
        SBSymbol { raw }
    }

    /// Construct a new `Some(SBSymbol)` when LLDB reports `raw` valid, or
    /// `None`.
    pub fn maybe_wrap(raw: R, is_valid: bool) -> (r: Option<Self>)
        ensures
            r is Some <==> is_valid,
            r matches Some(w) ==> w.raw == raw,
    {
        if is_valid {
            Some(SBSymbol { raw })
        } else {
            None
        }
    }
}

} // verus!
