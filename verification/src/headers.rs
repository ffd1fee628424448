//! Headers of requests.
use vstd::prelude::*;
use vstd::utf8::*;

verus! {

/// Whether a byte may stand in the value of a header.
pub open spec fn header_byte(b: u8) -> bool {
    (b >= 32 && b != 127) || b == 9
}

/// Whether a text can be the value of a header.
pub open spec fn header_text_ok(s: Seq<char>) -> bool {
    forall|i: int| 0 <= i < encode_utf8(s).len() ==> header_byte(#[trigger] encode_utf8(s)[i])
}

/// `reqwest::header::HeaderValue::from_str`: it takes a text whose bytes are all a
/// tab, or neither below a space nor `DEL`. Its error has one text.
#[verifier::external_body]
pub(crate) fn header_value(s: &str) -> (r: Result<(), String>)
    ensures
        match r {
            Ok(_) => header_text_ok(s@),
            Err(e) => !header_text_ok(s@) && e@ == "failed to parse header value"@,
        },
{
    match reqwest::header::HeaderValue::from_str(s) {
        Ok(_) => Ok(()),
        Err(e) => Err(e.to_string()),
    }
}

/// Whether a byte may stand in the name of a header.
pub open spec fn name_byte(b: u8) -> bool {
    ||| 0x30 <= b <= 0x39
    ||| 0x41 <= b <= 0x5a
    ||| 0x61 <= b <= 0x7a
    ||| b == 0x21
    ||| 0x23 <= b <= 0x27
    ||| b == 0x2a
    ||| b == 0x2b
    ||| b == 0x2d
    ||| b == 0x2e
    ||| 0x5e <= b <= 0x60
    ||| b == 0x7c
    ||| b == 0x7e
}

/// Whether a text can be the name of a header.
pub open spec fn header_name_ok(s: Seq<char>) -> bool {
    &&& 0 < encode_utf8(s).len() <= 65535
    &&& forall|i: int| 0 <= i < encode_utf8(s).len() ==> name_byte(#[trigger] encode_utf8(s)[i])
}

/// `reqwest::header::HeaderName::from_bytes` on the bytes of a text: it takes from one
/// to 65535 letters, digits and signs of the set ``!#$%&'*+-.^_`|~``. Its error has
/// one text.
#[verifier::external_body]
pub(crate) fn header_name(s: &str) -> (r: Result<(), String>)
    ensures
        match r {
            Ok(_) => header_name_ok(s@),
            Err(e) => !header_name_ok(s@) && e@ == "invalid HTTP header name"@,
        },
{
    match reqwest::header::HeaderName::from_bytes(s.as_bytes()) {
        Ok(_) => Ok(()),
        Err(e) => Err(e.to_string()),
    }
}

} // verus!
