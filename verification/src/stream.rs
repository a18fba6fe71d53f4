//! Output streams.

use vstd::prelude::*;

verus! {

/// A destination for streaming data output.
#[derive(Clone, Debug)]
pub struct SBStream<R> {
    /// The underlying raw reference to LLDB's stream.
    pub raw: R,
}

impl<R> SBStream<R> {
    /// Construct a new `SBStream`.
    pub fn wrap(raw: R) -> (r: Self)
        ensures
            r.raw == raw,
    {
        SBStream { raw }
    }

    /// Construct a new `Some(SBStream)` when LLDB reports `raw` valid, or
    /// `None`.
    pub fn maybe_wrap(raw: R, is_valid: bool) -> (r: Option<Self>)
        ensures
            r is Some <==> is_valid,
            r matches Some(w) ==> w.raw == raw,
    {
        if is_valid {
            Some(SBStream { raw })
        } else {
            None
        }
    }

    /// Is this stream empty, given the number of bytes LLDB reports in it?
    pub fn is_empty(&self, len: usize) -> (r: bool)
        ensures
            r == (len == 0),
    {
        len == 0
    }
}

} // verus!
