//! Turning host-provided text handles into owned, validated strings.

use vstd::prelude::*;
use vstd::utf8::*;
use vstd::string::*;

verus! {

broadcast use vstd::utf8::group_utf8_lib;

/// Why a host text handle could not be turned into a string.
#[derive(Debug, Clone, Copy, PartialEq, Eq, Structural)]
pub enum TextError {
    /// The handle was null.
    Null,
    /// The bytes behind the handle are not valid UTF-8.
    InvalidEncoding,
}

/// Relies on std::str::from_utf8: it accepts exactly the valid UTF-8 byte
/// sequences, and the string slice it returns covers those same bytes.
#[verifier::external_body]
fn utf8_str(bytes: &[u8]) -> (r: Option<&str>)
    ensures
        r is Some <==> valid_utf8(bytes@),
        r matches Some(s) ==> s.spec_bytes() == bytes@,
{
    std::str::from_utf8(bytes).ok()
}

/// The outcome of decoding a host handle: `None` stands for a null handle,
/// `Some(bytes)` for the bytes up to (not including) its terminator.
pub open spec fn decoded(handle: Option<Seq<u8>>) -> Result<Seq<char>, TextError> {
    match handle {
        None => Err(TextError::Null),
        Some(b) => if valid_utf8(b) {
            Ok(decode_utf8(b))
        } else {
            Err(TextError::InvalidEncoding)
        },
    }
}

/// The view of an optional byte slice, as `decoded` takes it.
pub open spec fn handle_view(handle: Option<&[u8]>) -> Option<Seq<u8>> {
    match handle {
        None => None,
        Some(b) => Some(b@),
    }
}

/// Decodes a host text handle into an owned string.
pub fn decode_text(handle: Option<&[u8]>) -> (r: Result<String, TextError>)
    ensures
        match (r, decoded(handle_view(handle))) {
            (Ok(s), Ok(t)) => s@ == t,
            (Err(e), Err(f)) => e == f,
            _ => false,
        },
{
    match handle {
        None => Err(TextError::Null),
        Some(bytes) => match utf8_str(bytes) {
            None => Err(TextError::InvalidEncoding),
            Some(s) => Ok(s.to_owned()),
        },
    }
}

} // verus!
