//! Lexical blocks.

use vstd::prelude::*;

verus! {

/// A lexical block.
#[derive(Clone, Debug)]
pub struct SBBlock<R> {
    /// The underlying raw reference to LLDB's block.
    pub raw: R,
}

impl<R> SBBlock<R> {
    /// Construct a new `SBBlock`.
    pub fn wrap(raw: R) -> (r: Self)
        ensures
            r.raw == raw,
    {
        SBBlock { raw }
    }

    /// Construct a new `Some(SBBlock)` when LLDB reports `raw` valid, or
    /// `None`.
    pub fn maybe_wrap(raw: R, is_valid: bool) -> (r: Option<Self>)
        ensures
            r is Some <==> is_valid,
            r matches Some(w) ==> w.raw == raw,
    {
        if is_valid {
            Some(SBBlock { raw })
        } else {
            None
        }
    }

    /// The call site line number if this block represents an inlined
    /// function, given the line LLDB reports (`0` when there is none).
    pub fn inlined_call_site_line(&self, line: u32) -> (r: Option<u32>)
        ensures
            r == (if line > 0 { Some(line) } else { None::<u32> }),
    {
        if line > 0 {
            Some(line)
        } else {
            None
        }
    }

    /// The call site column number if this block represents an inlined
    /// function, given the column LLDB reports (`0` when there is none).
    pub fn inlined_call_site_column(&self, column: u32) -> (r: Option<u32>)
        ensures
            r == (if column > 0 { Some(column) } else { None::<u32> }),
    {
        if column > 0 {
            Some(column)
        } else {
            None
        }
    }
}

} // verus!
