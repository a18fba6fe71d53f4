//! LLDB's error objects.

use vstd::prelude::*;
use vstd::string::*;

verus! {

/// A container for holding any error code and an error message.
///
/// An `SBError` is used to indicate whether or not an operation has
/// succeeded or failed, along with an indication of why it has failed.
/// Whether it represents a success is a question for LLDB; the answer
/// decides what [`SBError::into_result()`] gives.
#[derive(Clone, Debug)]
pub struct SBError<R> {
    /// The underlying raw reference to LLDB's error object.
    pub raw: R,
}

impl<R> SBError<R> {
    /// Construct a new `SBError`.
    pub fn wrap(raw: R) -> (r: Self)
        ensures
            r.raw == raw,
    {
        SBError { raw }
    }

    /// Construct a new `Some(SBError)` when LLDB reports `raw` valid, or
    /// `None`.
    pub fn maybe_wrap(raw: R, is_valid: bool) -> (r: Option<Self>)
        ensures
            r is Some <==> is_valid,
            r matches Some(w) ==> w.raw == raw,
    {
        if is_valid {
            Some(SBError { raw })
        } else {
            None
        }
    }

    /// The text that describes this error to a user, given whether it
    /// represents a success (`is_success`) and its message (`message`), as
    /// LLDB reports them.
    pub fn display_text(&self, is_success: bool, message: &str) -> (r: String)
        ensures
            r@ == (if is_success {
                "SBError representing success"@
            } else {
                "SBError: "@ + message@
            }),
    {
        if is_success {
            "SBError representing success".to_owned()
        } else {
            let mut text = "SBError: ".to_owned();
            text.append(message);
            text
        }
    }

    /// Convert to a `Result<(), SBError>`.
    ///
    /// An `SBError` represents either a success or a failure, as
    /// `is_success` (what LLDB reports of it) says. The success variant
    /// becomes `Ok(())` and the failure variant `Err(self)`.
    pub fn into_result(self, is_success: bool) -> (r: Result<(), Self>)
        ensures
            r is Ok <==> is_success,
            r matches Err(e) ==> e == self,
    {
        if is_success {
            Ok(())
        } else {
            Err(self)
        }
    }
}

} // verus!
