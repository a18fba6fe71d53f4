//! Addresses within a target.

use vstd::prelude::*;

verus! {

/// A section + offset based address class.
///
/// Addresses may be relative to a section that can move during runtime due to
/// images (executables, shared libraries, bundles, frameworks) being loaded at
/// different addresses than the addresses found in the object file that
/// represents them on disk. There are file addresses, the virtual addresses in
/// the object files on disk, and load addresses, where each section ends up
/// getting loaded at runtime.
#[derive(Clone, Debug)]
pub struct SBAddress<R> {
    /// The underlying raw reference to LLDB's address.
    pub raw: R,
}

impl<R> SBAddress<R> {
    /// Construct a new `SBAddress`.
    pub fn wrap(raw: R) -> (r: Self)
        ensures
            r.raw == raw,
    {
        SBAddress { raw }
    }

    /// Construct a new `Some(SBAddress)` when LLDB reports `raw` valid, or
    /// `None`.
    pub fn maybe_wrap(raw: R, is_valid: bool) -> (r: Option<Self>)
        ensures
            r is Some <==> is_valid,
            r matches Some(w) ==> w.raw == raw,
    {
        if is_valid {
            Some(SBAddress { raw })
        } else {
            None
        }
    }
}

} // verus!
