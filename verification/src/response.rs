//! The one response that the server gives: a status line, the length of the
//! body, a blank line, the body.

use crate::decimal::{
    all_digits, decimal_text, decimal_value, lemma_decimal_round_trip,
    lemma_decimal_text_is_digits, push_decimal,
};
use vstd::prelude::*;
use vstd::string::*;
use vstd::utf8::{encode_utf8, is_ascii_chars_encode_utf8};

verus! {

/// The first line of every response.
pub const STATUS_LINE: &'static str = "HTTP/1.1 200 OK\r\n";

/// The name of the one header, with the separator that follows it.
pub const LENGTH_HEADER: &'static str = "Content-Length: ";

/// The end of the header's line and the blank line after it.
pub const HEAD_END: &'static str = "\r\n\r\n";

/// The body of every response.
pub const BODY: &'static str = "Hello from Rust server!";

/// The number of bytes that a text takes on the wire.
pub open spec fn byte_len(text: Seq<char>) -> nat {
    encode_utf8(text).len()
}

/// What comes before the length in every response.
pub open spec fn response_head() -> Seq<char> {
    STATUS_LINE@ + LENGTH_HEADER@
}

/// The response that carries `body`: the status line, the header with the
/// body's length in bytes, a blank line, and the body itself.
pub open spec fn response_text(body: Seq<char>) -> Seq<char> {
    response_head() + decimal_text(byte_len(body)) + HEAD_END@ + body
}

/// The characters of `text` before its first carriage return; all of them
/// where it has none.
pub open spec fn up_to_return(text: Seq<char>) -> Seq<char>
    decreases text.len(),
{
    if text.len() == 0 || text[0] == '\r' {
        Seq::empty()
    } else {
        seq![text[0]] + up_to_return(text.drop_first())
    }
}

/// The length that a response declares: the number written between the
/// header's name and the end of its line. `None` where the text does not
/// begin as a response does, or where no number stands there.
pub open spec fn declared_length(response: Seq<char>) -> Option<nat> {
    let head = response_head();
    if head.is_prefix_of(response) {
        let field = up_to_return(response.skip(head.len() as int));
        if field.len() > 0 && all_digits(field) {
            Some(decimal_value(field))
        } else {
            None
        }
    } else {
        None
    }
}

/// A run of digits that a carriage return follows is what stands before the
/// first carriage return.
proof fn lemma_up_to_return_of_digits(digits: Seq<char>, rest: Seq<char>)
    requires
        all_digits(digits),
        rest.len() > 0,
        rest[0] == '\r',
    ensures
        up_to_return(digits + rest) == digits,
    decreases digits.len(),
{
    if digits.len() > 0 {
        assert((digits + rest).drop_first() =~= digits.drop_first() + rest);
        lemma_up_to_return_of_digits(digits.drop_first(), rest);
    }
}

/// The length that a response declares is the length of its body in bytes,
/// whatever the body.
pub proof fn lemma_declared_length_is_body_length(body: Seq<char>)
    ensures
        declared_length(response_text(body)) == Some(byte_len(body)),
{
    reveal_strlit("\r\n\r\n");
    let digits = decimal_text(byte_len(body));
    let rest = HEAD_END@ + body;
    lemma_decimal_text_is_digits(byte_len(body));
    lemma_decimal_round_trip(byte_len(body));
    assert(response_text(body).skip(response_head().len() as int) =~= digits + rest);
    lemma_up_to_return_of_digits(digits, rest);
}

/// A response begins with the status line and ends with its body, whatever
/// the body.
pub proof fn lemma_response_shape(body: Seq<char>)
    ensures
        STATUS_LINE@.is_prefix_of(response_text(body)),
        body.is_suffix_of(response_text(body)),
        (HEAD_END@ + body).is_suffix_of(response_text(body)),
{
    assert(response_text(body) =~= STATUS_LINE@ + (LENGTH_HEADER@ + decimal_text(byte_len(body))
        + HEAD_END@ + body));
}

/// The fixed body takes as many bytes as it has characters, and the fixed
/// response is this text.
pub proof fn lemma_fixed_response_text()
    ensures
        byte_len(BODY@) == 23,
        response_text(BODY@)
            == "HTTP/1.1 200 OK\r\nContent-Length: 23\r\n\r\nHello from Rust server!"@,
{
    reveal_strlit("HTTP/1.1 200 OK\r\n");
    reveal_strlit("Content-Length: ");
    reveal_strlit("\r\n\r\n");
    reveal_strlit("Hello from Rust server!");
    reveal_strlit("HTTP/1.1 200 OK\r\nContent-Length: 23\r\n\r\nHello from Rust server!");
    is_ascii_chars_encode_utf8(BODY@);
    reveal_with_fuel(decimal_text, 2);
    assert(response_text(BODY@)
        =~= "HTTP/1.1 200 OK\r\nContent-Length: 23\r\n\r\nHello from Rust server!"@);
}

/// Wraps a body in the response that carries it.
pub fn wrap_body(body: &str) -> (r: String)
    ensures
        r@ == response_text(body@),
{
    let mut out = STATUS_LINE.to_owned();
    out.append(LENGTH_HEADER);
    push_decimal(&mut out, body.as_bytes().len());
    out.append(HEAD_END);
    out.append(body);
    out
}

/// The response that every connection gets.
pub fn fixed_response() -> (r: String)
    ensures
        r@ == response_text(BODY@),
        r@ == "HTTP/1.1 200 OK\r\nContent-Length: 23\r\n\r\nHello from Rust server!"@,
{
    proof {
        lemma_fixed_response_text();
    }
    wrap_body(BODY)
}

} // verus!
