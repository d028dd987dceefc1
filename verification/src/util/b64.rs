//! Standard base64 (RFC 4648 alphabet, `=` padding) through the `base64` crate.
use vstd::prelude::*;
use base64::Engine;

verus! {

/// Character of the standard alphabet for a 6-bit value.
pub open spec fn b64_char(v: int) -> char {
    if v < 26 {
        ((v + 65) as u8) as char
    } else if v < 52 {
        ((v + 71) as u8) as char
    } else if v < 62 {
        ((v - 4) as u8) as char
    } else if v == 62 {
        '+'
    } else {
        '/'
    }
}

/// Standard base64 encoding with padding: each 3-byte group becomes 4 characters,
/// a trailing group of 1 or 2 bytes is padded with `=`.
pub open spec fn base64_encode(b: Seq<u8>) -> Seq<char>
    decreases b.len(),
{
    if b.len() == 0 {
        seq![]
    } else if b.len() == 1 {
        seq![b64_char((b[0] / 4) as int), b64_char((b[0] % 4) * 16), '=', '=']
    } else if b.len() == 2 {
        seq![
            b64_char((b[0] / 4) as int),
            b64_char((b[0] % 4) * 16 + b[1] / 16),
            b64_char((b[1] % 16) * 4),
            '=',
        ]
    } else {
        seq![
            b64_char((b[0] / 4) as int),
            b64_char((b[0] % 4) * 16 + b[1] / 16),
            b64_char((b[1] % 16) * 4 + b[2] / 64),
            b64_char((b[2] % 64) as int),
        ] + base64_encode(b.skip(3))
    }
}

/// What the `base64` crate's `STANDARD` engine makes of `s`: the decoded bytes,
/// or, when it rejects `s`, the text of its `DecodeError`.
pub uninterp spec fn base64_decode(s: Seq<char>) -> core::result::Result<Seq<u8>, Seq<char>>;

/// A successful decoding to `bytes`.
pub open spec fn decoded_as(bytes: Seq<u8>) -> core::result::Result<Seq<u8>, Seq<char>> {
    Ok(bytes)
}

/// Encodes with `base64::engine::general_purpose::STANDARD.encode`.
/// Trusted: the result is the padded standard encoding, and decoding it gives `bytes` back.
#[verifier::external_body]
pub(crate) fn base64_encode_bytes(bytes: &[u8]) -> (s: String)
    ensures
        s@ == base64_encode(bytes@),
        base64_decode(s@) == decoded_as(bytes@),
{
    base64::engine::general_purpose::STANDARD.encode(bytes)
}

/// Decodes with `base64::engine::general_purpose::STANDARD.decode`.
/// Trusted: `Ok` carries the named decoding, `Err` the `Display` text of the
/// crate's `DecodeError`, which depends on the input alone.
#[verifier::external_body]
pub(crate) fn base64_decode_str(s: &str) -> (r: Result<Vec<u8>, String>)
    ensures
        base64_decode(s@) == match r {
            Ok(v) => Ok(v@),
            Err(e) => Err(e@),
        },
{
    base64::engine::general_purpose::STANDARD.decode(s).map_err(|e| e.to_string())
}

} // verus!
