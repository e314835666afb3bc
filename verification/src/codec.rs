//! Base64, as the protocol carries body bytes.
use vstd::prelude::*;
use base64::Engine;

verus! {

/// The character of a six-bit value in the standard base64 alphabet.
pub open spec fn base64_char(v: int) -> char {
    if v < 26 {
        (('A' as int) + v) as char
    } else if v < 52 {
        (('a' as int) + (v - 26)) as char
    } else if v < 62 {
        (('0' as int) + (v - 52)) as char
    } else if v == 62 {
        '+'
    } else {
        '/'
    }
}

/// Standard base64 with padding (RFC 4648, section 4): each group of three bytes becomes four
/// characters; a last group of one or two bytes is padded with `=`.
pub open spec fn base64_standard(b: Seq<u8>) -> Seq<char>
    decreases b.len(),
{
    if b.len() == 0 {
        Seq::empty()
    } else if b.len() == 1 {
        seq![base64_char(b[0] as int / 4), base64_char((b[0] as int % 4) * 16), '=', '=']
    } else if b.len() == 2 {
        seq![
            base64_char(b[0] as int / 4),
            base64_char((b[0] as int % 4) * 16 + b[1] as int / 16),
            base64_char((b[1] as int % 16) * 4),
            '=',
        ]
    } else {
        seq![
            base64_char(b[0] as int / 4),
            base64_char((b[0] as int % 4) * 16 + b[1] as int / 16),
            base64_char((b[1] as int % 16) * 4 + b[2] as int / 64),
            base64_char(b[2] as int % 64),
        ] + base64_standard(b.skip(3))
    }
}

/// `base64::engine::general_purpose::STANDARD.encode`: standard base64 with padding.
#[verifier::external_body]
pub(crate) fn base64_encode(bytes: &[u8]) -> (r: String)
    ensures
        r@ == base64_standard(bytes@),
{
    base64::engine::general_purpose::STANDARD.encode(bytes)
}

/// The base64 text of optional body bytes.
pub fn encode_optional_bytes(value: Option<Vec<u8>>) -> (r: Option<String>)
    ensures
        match value {
            Some(b) => r matches Some(s) && s@ == base64_standard(b@),
            None => r is None,
        },
{
    match value {
        Some(bytes) => Some(base64_encode(bytes.as_slice())),
        None => None,
    }
}

} // verus!
