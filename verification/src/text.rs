//! Text that the engine hands out as raw bytes.

use vstd::prelude::*;
use vstd::string::StringSliceAdditionalSpecFns;
use vstd::utf8::valid_utf8;

verus! {

/// `core::str::from_utf8`: reads a byte slice as a string slice, without
/// copying. Trusted: the call succeeds exactly on the slices that are valid
/// UTF-8, and a string slice that it returns consists of the very bytes it
/// was given.
#[verifier::external_body]
pub(crate) fn str_from_utf8(raw: &[u8]) -> (text: Option<&str>)
    ensures
        text is Some <==> valid_utf8(raw@),
        text matches Some(s) ==> s.spec_bytes() == raw@,
{
    match core::str::from_utf8(raw) {
        Ok(text) => Some(text),
        Err(_) => None,
    }
}

} // verus!
