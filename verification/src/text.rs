//! Text that LLDB hands over as raw bytes.

use vstd::prelude::*;
use vstd::string::*;
use vstd::utf8::*;

verus! {

/// Reads `bytes` as UTF-8 text.
///
/// Calls `core::str::from_utf8`, which (by its documentation) succeeds
/// exactly when the bytes are well-formed UTF-8, and then yields the string
/// they encode. The contract states both over vstd's `valid_utf8` and
/// `decode_utf8`.
#[verifier::external_body]
pub(crate) fn str_from_utf8(bytes: &[u8]) -> (r: Option<&str>)
    ensures
        r is Some <==> valid_utf8(bytes@),
        r matches Some(s) ==> s@ == decode_utf8(bytes@),
{
    core::str::from_utf8(bytes).ok()
}

/// The text of a string that LLDB hands out, read in place: `None` when
/// there is no string (`bytes` is `None`) or when its bytes are not
/// well-formed UTF-8.
pub fn read_text<'a>(bytes: Option<&'a [u8]>) -> (r: Option<&'a str>)
    ensures
        match bytes {
            None => r is None,
            Some(b) => (r is Some <==> valid_utf8(b@)) && (r matches Some(s) ==> s@ == decode_utf8(
                b@,
            )),
        },
{
    match bytes {
        Some(b) => str_from_utf8(b),
        None => None,
    }
}

/// The text that `bytes` encode in UTF-8, or `None` when they are not
/// well-formed UTF-8.
pub fn decode_text(bytes: &[u8]) -> (r: Option<String>)
    ensures
        r is Some <==> valid_utf8(bytes@),
        r matches Some(s) ==> s@ == decode_utf8(bytes@),
{
    match str_from_utf8(bytes) {
        Some(s) => Some(s.to_owned()),
        None => None,
    }
}

} // verus!
