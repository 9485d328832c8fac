//! Base64 (standard alphabet, padded) and UTF-8 decoding, with the outside
//! calls that do the work.

use vstd::prelude::*;
use vstd::utf8::{decode_utf8, encode_utf8, valid_utf8};
use base64::Engine;

verus! {

/// The character of the standard base64 alphabet for a six-bit value.
pub open spec fn base64_char(v: int) -> char {
    if v < 26 {
        (65 + v) as char
    } else if v < 52 {
        (97 + v - 26) as char
    } else if v < 62 {
        (48 + v - 52) as char
    } else if v == 62 {
        '+'
    } else {
        '/'
    }
}

/// Standard base64 with `=` padding (RFC 4648, section 4): every three bytes
/// become four characters, and a final group of one or two bytes is padded.
pub open spec fn base64_encode(b: Seq<u8>) -> Seq<char>
    decreases b.len(),
{
    if b.len() == 0 {
        Seq::empty()
    } else {
        let x0 = b[0] as int;
        let x1 = if b.len() > 1 { b[1] as int } else { 0 };
        let x2 = if b.len() > 2 { b[2] as int } else { 0 };
        let c0 = base64_char(x0 / 4);
        let c1 = base64_char((x0 % 4) * 16 + x1 / 16);
        let c2 = base64_char((x1 % 16) * 4 + x2 / 64);
        let c3 = base64_char(x2 % 64);
        if b.len() == 1 {
            seq![c0, c1, '=', '=']
        } else if b.len() == 2 {
            seq![c0, c1, c2, '=']
        } else {
            seq![c0, c1, c2, c3] + base64_encode(b.skip(3))
        }
    }
}

/// Whether the base64 text of the UTF-8 bytes of `s` fits in memory: a
/// `String` holds at most `isize::MAX` bytes.
pub open spec fn base64_fits(s: Seq<char>) -> bool {
    base64_encode(encode_utf8(s)).len() <= isize::MAX
}

/// `base64::engine::general_purpose::STANDARD.encode`, applied to the UTF-8
/// bytes of `input`. Claimed: the result is the padded standard encoding of
/// those bytes. The crate panics when the encoded length overflows or its
/// buffer cannot be allocated, that is when the result would not fit; the
/// requirement excludes that.
#[verifier::external_body]
pub(crate) fn base64_standard_encode(input: &str) -> (r: String)
    requires
        base64_fits(input@),
    ensures
        r@ == base64_encode(encode_utf8(input@)),
{
    base64::engine::general_purpose::STANDARD.encode(input)
}

/// The view of a decoding outcome.
pub open spec fn bytes_outcome(r: Result<Vec<u8>, String>) -> Result<Seq<u8>, Seq<char>> {
    match r {
        Ok(v) => Ok(v@),
        Err(m) => Err(m@),
    }
}

/// What `STANDARD.decode` makes of the UTF-8 bytes of a string: the decoded
/// bytes, or the text of the `DecodeError` it reports.
pub uninterp spec fn base64_decode_result(input: Seq<char>) -> Result<Seq<u8>, Seq<char>>;

/// `base64::engine::general_purpose::STANDARD.decode`, with a decode error
/// turned into its message. Claimed: the outcome is `base64_decode_result`
/// of the input; a string that is the padded standard encoding of some
/// bytes decodes to exactly those bytes; and it succeeds only on such a
/// string (the engine requires canonical padding and zero trailing bits, and
/// accepts no other characters), so the bytes encode back to the input.
#[verifier::external_body]
pub(crate) fn base64_standard_decode(input: &str) -> (r: Result<Vec<u8>, String>)
    ensures
        bytes_outcome(r) == base64_decode_result(input@),
        forall|bytes: Seq<u8>| #[trigger] base64_encode(bytes) == input@ ==> r is Ok && r->Ok_0@ == bytes,
        r is Ok ==> base64_encode(r->Ok_0@) == input@,
{
    base64::engine::general_purpose::STANDARD.decode(input).map_err(|e| e.to_string())
}

/// The message of the `FromUtf8Error` that `String::from_utf8` reports for
/// the given bytes.
pub uninterp spec fn utf8_error_text(bytes: Seq<u8>) -> Seq<char>;

/// `String::from_utf8` from std, with the error turned into its message.
/// Claimed: it succeeds exactly on valid UTF-8 and then holds the decoded
/// characters; otherwise the message is `utf8_error_text` of the bytes.
#[verifier::external_body]
pub(crate) fn string_from_utf8(bytes: Vec<u8>) -> (r: Result<String, String>)
    ensures
        r is Ok <==> valid_utf8(bytes@),
        r matches Ok(s) ==> s@ == decode_utf8(bytes@),
        r matches Err(m) ==> m@ == utf8_error_text(bytes@),
{
    String::from_utf8(bytes).map_err(|e| e.to_string())
}

} // verus!
