//! The request: bytes that are read once, printed, and never looked into.

use vstd::prelude::*;
use vstd::slice::slice_subrange;
use vstd::utf8::{encode_utf8, valid_utf8};

verus! {

/// The text that `String::from_utf8_lossy` reads from bytes. Bytes that are
/// UTF-8 give the text that they encode; a run of bytes that encodes nothing
/// is replaced by U+FFFD and the rest is read on.
pub uninterp spec fn lossy_text(bytes: Seq<u8>) -> Seq<char>;

/// `String::from_utf8_lossy`: it reads text from any bytes and never fails.
/// Where the bytes are UTF-8, the text is the one that they encode.
#[verifier::external_body]
fn decode_lossy(bytes: &[u8]) -> (text: String)
    ensures
        text@ == lossy_text(bytes@),
        valid_utf8(bytes@) ==> encode_utf8(text@) == bytes@,
{
    String::from_utf8_lossy(bytes).into_owned()
}

/// The bytes that a read has put into a buffer: the first `filled` of them,
/// and all of them where the buffer holds fewer.
pub open spec fn filled_part(buffer: Seq<u8>, filled: usize) -> Seq<u8> {
    if filled <= buffer.len() {
        buffer.take(filled as int)
    } else {
        buffer
    }
}

/// The request as text, for printing: what the read has put into the buffer,
/// with every run of bytes that is no text replaced. No request is refused.
pub fn request_text(buffer: &[u8], filled: usize) -> (text: String)
    ensures
        text@ == lossy_text(filled_part(buffer@, filled)),
        valid_utf8(filled_part(buffer@, filled)) ==> encode_utf8(text@) == filled_part(
            buffer@,
            filled,
        ),
{
    if filled <= buffer.len() {
        decode_lossy(slice_subrange(buffer, 0, filled))
    } else {
        decode_lossy(buffer)
    }
}

} // verus!
