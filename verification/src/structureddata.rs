//! Structured data.

use vstd::prelude::*;
use vstd::utf8::*;

use crate::text::decode_text;

verus! {

/// A value of structured data: a dictionary, an array, a string, an
/// integer, a floating point number, a boolean or null.
#[derive(Clone, Debug)]
pub struct SBStructuredData<R> {
    /// The underlying raw reference to LLDB's structured data.
    pub raw: R,
}

impl<R> SBStructuredData<R> {
    /// Construct a new `SBStructuredData`.
    pub fn wrap(raw: R) -> (r: Self)
        ensures
            r.raw == raw,
    {
        SBStructuredData { raw }
    }

    /// Construct a new `Some(SBStructuredData)` when LLDB reports `raw` valid, or
    /// `None`.
    pub fn maybe_wrap(raw: R, is_valid: bool) -> (r: Option<Self>)
        ensures
            r is Some <==> is_valid,
            r matches Some(w) ==> w.raw == raw,
    {
        if is_valid {
            Some(SBStructuredData { raw })
        } else {
            None
        }
    }

    /// The integer value of this data, when it is an integer, given its
    /// kind and the integer LLDB reads from it.
    pub fn integer_value(&self, data_type: StructuredDataType, value: u64) -> (r: Option<u64>)
        ensures
            r == (if data_type == StructuredDataType::Integer { Some(value) } else { None::<u64> }),
    {
        match data_type {
            StructuredDataType::Integer => Some(value),
            _ => None,
        }
    }

    /// The boolean value of this data, when it is a boolean, given its kind
    /// and the boolean LLDB reads from it.
    pub fn boolean_value(&self, data_type: StructuredDataType, value: bool) -> (r: Option<bool>)
        ensures
            r == (if data_type == StructuredDataType::Boolean { Some(value) } else { None::<bool> }),
    {
        match data_type {
            StructuredDataType::Boolean => Some(value),
            _ => None,
        }
    }

    /// The size of the buffer to hand LLDB for a string of `len` bytes:
    /// room for the bytes and the NUL that LLDB writes after them, or `None`
    /// when that does not fit in a `usize`.
    pub fn string_buffer_size(&self, len: usize) -> (r: Option<usize>)
        ensures
            r == (if len < usize::MAX { Some((len + 1) as usize) } else { None::<usize> }),
    {
        if len < usize::MAX {
            Some(len + 1)
        } else {
            None
        }
    }

    /// The bytes of a string of `len` bytes in the buffer `buf` that LLDB
    /// filled: the first `len` of them, before the NUL that ends them, or as
    /// many as the buffer holds.
    pub fn string_bytes<'a>(&self, buf: &'a [u8], len: usize) -> (r: &'a [u8])
        ensures
            r@ == buf@.subrange(0, if len <= buf@.len() { len as int } else { buf@.len() as int }),
    {
        let end = if len <= buf.len() {
            len
        } else {
            buf.len()
        };
        vstd::slice::slice_subrange(buf, 0, end)
    }

    /// The string value of this data, when it is a string whose bytes (as
    /// LLDB copies them out) are UTF-8, given its kind and those bytes.
    pub fn string_value(&self, data_type: StructuredDataType, bytes: &[u8]) -> (r: Option<String>)
        ensures
            r is Some <==> (data_type == StructuredDataType::String && valid_utf8(bytes@)),
            r matches Some(s) ==> s@ == decode_utf8(bytes@),
    {
        match data_type {
            StructuredDataType::String => decode_text(bytes),
            _ => None,
        }
    }
}

/// The kind of value a structured data object holds.
#[derive(Clone, Copy, Debug, PartialEq, Eq, Structural)]
pub enum StructuredDataType {
    /// Not a valid structured data value.
    Invalid,
    /// The null value.
    Null,
    /// A value of no other kind.
    Generic,
    /// An array of values.
    Array,
    /// An integer.
    Integer,
    /// A floating point number.
    Float,
    /// A boolean.
    Boolean,
    /// A string.
    String,
    /// A dictionary from string keys to values.
    Dictionary,
}

} // verus!
