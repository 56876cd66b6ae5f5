//! Text out of the bytes of an information log.

use vstd::prelude::*;
use vstd::utf8::*;

verus! {

/// The text that a lossy UTF-8 decoding makes of `bytes`: the characters that
/// the well-formed parts encode, with U+FFFD wherever the bytes are not
/// well-formed.
pub uninterp spec fn lossy_text(bytes: Seq<u8>) -> Seq<char>;

/// Whether lossy decoding leaves `bytes` alone where there is nothing to
/// replace: bytes that are well-formed UTF-8 become the text they encode.
pub open spec fn keeps_well_formed(bytes: Seq<u8>) -> bool {
    valid_utf8(bytes) ==> lossy_text(bytes) == decode_utf8(bytes)
}

/// Decodes bytes as UTF-8, replacing what is not well-formed.
///
/// Calls `String::from_utf8_lossy` and takes the result as an owned string.
/// Believed, not proved: the result is [`lossy_text`] of the bytes, and for
/// bytes that are well-formed UTF-8 it is the string they encode.
#[verifier::external_body]
pub(crate) fn decode_lossy(bytes: &Vec<u8>) -> (text: String)
    ensures
        text@ == lossy_text(bytes@),
        valid_utf8(bytes@) ==> text@ == decode_utf8(bytes@),
{
    String::from_utf8_lossy(bytes).into_owned()
}

} // verus!
