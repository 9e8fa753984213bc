//! Decoding cached bytes as text.
//!
//! Content entries are opaque bytes; the text-oriented request API only
//! serves them when they form valid UTF-8. Validity and the decoded
//! character sequence are the ones defined in `vstd::utf8`.

use vstd::prelude::*;
use vstd::utf8::{decode_utf8, valid_utf8};

verus! {

/// Decodes bytes as UTF-8 text, or `None` when they are not valid UTF-8.
///
/// Relies on `String::from_utf8`: it returns the decoded string exactly when
/// the bytes are a valid UTF-8 encoding, and rejects any other input.
#[verifier::external_body]
pub fn bytes_to_text(bytes: Vec<u8>) -> (r: Option<String>)
    ensures
        match r {
            Some(s) => valid_utf8(bytes@) && s@ == decode_utf8(bytes@),
            None => !valid_utf8(bytes@),
        },
{
    String::from_utf8(bytes).ok()
}

} // verus!
