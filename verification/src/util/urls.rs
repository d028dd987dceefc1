//! URL parsing and percent-encoding through the `url` and `urlencoding` crates.
use vstd::prelude::*;
use vstd::utf8::*;

verus! {

/// The parts of a parsed URL that the library reads.
pub struct ParsedUrl {
    /// ASCII serialization of the origin (`scheme://host[:port]`).
    pub origin: String,
    /// The path component.
    pub path: String,
    /// Whether the URL has a query string.
    pub has_query: bool,
}

/// What `url::Url::parse` makes of `raw`: `None` when it rejects it, else the
/// origin's ASCII serialization, the path, and whether a query is present.
pub uninterp spec fn url_parts(raw: Seq<char>) -> Option<(Seq<char>, Seq<char>, bool)>;

/// The view of a parse result as plain values.
pub open spec fn parsed_view(p: Option<ParsedUrl>) -> Option<(Seq<char>, Seq<char>, bool)> {
    match p {
        Some(u) => Some((u.origin@, u.path@, u.has_query)),
        None => None,
    }
}

/// Parses `raw` with `url::Url::parse` and reads its origin, path and query presence.
/// Trusted: the result is what the `url` crate computes, which is named, not described.
#[verifier::external_body]
pub(crate) fn parse_url(raw: &str) -> (r: Option<ParsedUrl>)
    ensures
        parsed_view(r) == url_parts(raw@),
{
    match url::Url::parse(raw) {
        Ok(u) => Some(
            ParsedUrl {
                origin: u.origin().ascii_serialization(),
                path: u.path().to_owned(),
                has_query: u.query().is_some(),
            },
        ),
        Err(_) => None,
    }
}

/// Bytes `urlencoding::encode` leaves as they are: ASCII alphanumerics and `-`, `.`, `_`, `~`.
pub open spec fn is_unreserved(b: u8) -> bool {
    (48 <= b <= 57) || (65 <= b <= 90) || (97 <= b <= 122) || b == 45 || b == 46 || b == 95
        || b == 126
}

/// Upper-case hex digit for `d < 16`.
pub open spec fn hex_upper_char(d: u8) -> char {
    if d < 10 {
        ((d + 48) as u8) as char
    } else {
        ((d + 55) as u8) as char
    }
}

/// Percent-encoding of a byte sequence: unreserved bytes kept, every other byte as `%XX`.
pub open spec fn percent_encode(bytes: Seq<u8>) -> Seq<char>
    decreases bytes.len(),
{
    if bytes.len() == 0 {
        seq![]
    } else {
        let b = bytes[0];
        let head = if is_unreserved(b) {
            seq![b as char]
        } else {
            seq!['%', hex_upper_char(b / 16), hex_upper_char(b % 16)]
        };
        head + percent_encode(bytes.drop_first())
    }
}

/// Percent-encodes `s` with `urlencoding::encode`.
/// Trusted: that crate encodes each UTF-8 byte of `s` as `percent_encode` states.
#[verifier::external_body]
pub(crate) fn url_encode(s: &str) -> (r: String)
    ensures
        r@ == percent_encode(encode_utf8(s@)),
{
    urlencoding::encode(s).into_owned()
}

} // verus!
