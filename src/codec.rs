//! The calls into outside crates that the resolution logic makes: base64 and
//! the HTTP header-value rule.
use vstd::prelude::*;

verus! {

/// base64::DecodeError, the error of base64::decode; carried, never read.
#[verifier::external_type_specification]
#[verifier::external_body]
pub struct ExDecodeError(base64::DecodeError);

/// reqwest::header::HeaderValue, what HeaderValue::from_str returns; opaque.
#[verifier::external_type_specification]
#[verifier::external_body]
pub struct ExHeaderValue(reqwest::header::HeaderValue);

/// reqwest::header::InvalidHeaderValue, the error of HeaderValue::from_str.
#[verifier::external_type_specification]
#[verifier::external_body]
pub struct ExInvalidHeaderValue(reqwest::header::InvalidHeaderValue);

/// What the standard base64 encoding makes of the UTF-8 bytes of a text.
pub uninterp spec fn base64_text(s: Seq<char>) -> Seq<char>;

/// What standard base64 decoding makes of a text: `None` where it is not
/// valid base64.
pub uninterp spec fn base64_bytes(s: Seq<char>) -> Option<Seq<u8>>;

/// A text that an HTTP header value may hold: its UTF-8 bytes are all a tab,
/// or at least 32 and not 127. A character of 128 and above is encoded in
/// bytes of 128 and above only.
pub open spec fn header_text_ok(s: Seq<char>) -> bool {
    forall|i: int| 0 <= i < s.len() ==> ((s[i] as u32 >= 32 && s[i] as u32 != 127) || s[i]
        as u32 == 9)
}

/// Relies on base64::encode: the standard encoding of the text's bytes.
#[verifier::external_body]
pub(crate) fn encode_base64(s: &str) -> (r: String)
    ensures
        r@ == base64_text(s@),
{
    base64::encode(s)
}

/// Relies on base64::decode: the standard decoding of the text, or an error
/// where the text is not valid base64.
#[verifier::external_body]
pub(crate) fn decode_base64(s: &str) -> (r: Result<Vec<u8>, base64::DecodeError>)
    ensures
        match r {
            Ok(v) => base64_bytes(s@) == Some(v@),
            Err(_) => base64_bytes(s@) is None,
        },
{
    base64::decode(s)
}

/// Relies on reqwest::header::HeaderValue::from_str (the http crate): it
/// accepts a text exactly when every byte is a tab or at least 32 and not 127.
#[verifier::external_body]
pub(crate) fn header_value(s: &str) -> (r: Result<
    reqwest::header::HeaderValue,
    reqwest::header::InvalidHeaderValue,
>)
    ensures
        r is Ok <==> header_text_ok(s@),
{
    reqwest::header::HeaderValue::from_str(s)
}

} // verus!
