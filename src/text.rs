//! Turning raw bytes from the wire into text, and framing outgoing text with
//! a line ending.

use vstd::prelude::*;

verus! {

/// The text that lossy UTF-8 decoding makes of a byte sequence: valid
/// sequences decoded, each invalid one replaced by U+FFFD.
pub uninterp spec fn utf8_lossy(b: Seq<u8>) -> Seq<char>;

/// Relies on String::from_utf8_lossy: the decoded text depends on the bytes
/// alone; it never fails.
#[verifier::external_body]
pub(crate) fn decode_lossy(bytes: &[u8]) -> (r: String)
    ensures
        r@ == utf8_lossy(bytes@),
{
    String::from_utf8_lossy(bytes).into_owned()
}

} // verus!
