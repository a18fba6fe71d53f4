//! Event broadcasters.

use vstd::prelude::*;

verus! {

/// An entity which can broadcast events.
///
/// A default broadcaster is associated with an `SBCommandInterpreter`,
/// `SBProcess`, and `SBTarget`. Use an `SBListener` to listen for events.
#[derive(Clone, Debug)]
pub struct SBBroadcaster<R> {
    /// The underlying raw reference to LLDB's broadcaster.
    pub raw: R,
}

impl<R> SBBroadcaster<R> {
    /// Construct a new `SBBroadcaster`.
    pub fn wrap(raw: R) -> (r: Self)
        ensures
            r.raw == raw,
    {
        SBBroadcaster { raw }
    }

    /// Construct a new `Some(SBBroadcaster)` when LLDB reports `raw` valid, or
    /// `None`.
    pub fn maybe_wrap(raw: R, is_valid: bool) -> (r: Option<Self>)
        ensures
            r is Some <==> is_valid,
            r matches Some(w) ==> w.raw == raw,
    {
        if is_valid {
            Some(SBBroadcaster { raw })
        } else {
            None
        }
    }
}

} // verus!
