//! Log redaction utilities for sensitive data.
use vstd::prelude::*;
use vstd::utf8::*;
use vstd::string::{StringExecFns, StringSliceAdditionalSpecFns};
use crate::util::urls::{parse_url, parsed_view, url_parts, ParsedUrl};
use crate::util::text::{byte_len, byte_length, chars_of, decimal, push_decimal, push_str, string_from_chars};

verus! {

broadcast use vstd::utf8::group_utf8_lib;

/// Default maximum byte length kept by [`redact_body_default`].
pub const DEFAULT_BODY_MAX_LEN: usize = 200;
/// Default number of leading bytes kept by [`redact_token_default`].
pub const DEFAULT_TOKEN_PREFIX_LEN: usize = 6;

/// The greatest character boundary of `bytes` at or before `i` (0 when `i <= 0`).
pub open spec fn last_boundary(bytes: Seq<u8>, i: int) -> int
    decreases i,
{
    if i <= 0 {
        0
    } else if is_char_boundary(bytes, i) {
        i
    } else {
        last_boundary(bytes, i - 1)
    }
}

/// The byte index `safe_boundary(s, max)` returns: the whole length when `max`
/// reaches it, else the last character boundary at or before `max`.
pub open spec fn spec_safe_boundary(s: Seq<char>, max: int) -> int {
    if max >= byte_len(s) {
        byte_len(s) as int
    } else {
        last_boundary(encode_utf8(s), max)
    }
}

/// The characters whose UTF-8 encoding lies before byte `spec_safe_boundary(s, max)`.
pub open spec fn utf8_prefix(s: Seq<char>, max: int) -> Seq<char> {
    decode_utf8(encode_utf8(s).take(spec_safe_boundary(s, max)))
}

/// `s` cut to at most `max` bytes, followed by `marker`, the full byte length and `)`.
pub open spec fn cut_with_marker(s: Seq<char>, max: int, marker: Seq<char>) -> Seq<char> {
    utf8_prefix(s, max) + marker + decimal(byte_len(s)) + ")"@
}

/// What [`truncate`] returns.
pub open spec fn spec_truncate(s: Seq<char>, max: int) -> Seq<char> {
    if byte_len(s) <= max {
        s
    } else {
        cut_with_marker(s, max, "…(len="@)
    }
}

/// What [`redact_token`] returns.
pub open spec fn spec_redact_token(token: Seq<char>, prefix_len: int) -> Seq<char> {
    if token.len() == 0 {
        "(none)"@
    } else if byte_len(token) <= prefix_len {
        "****(len="@ + decimal(byte_len(token)) + ")"@
    } else {
        cut_with_marker(token, prefix_len, "…(len="@)
    }
}

proof fn lemma_last_boundary(bytes: Seq<u8>, i: int)
    requires
        valid_utf8(bytes),
        0 <= i <= bytes.len(),
    ensures
        0 <= last_boundary(bytes, i) <= i,
        is_char_boundary(bytes, last_boundary(bytes, i)),
        forall|j: int| last_boundary(bytes, i) < j <= i ==> !is_char_boundary(bytes, j),
    decreases i,
{
    is_char_boundary_start_end_of_seq(bytes);
    if i > 0 && !is_char_boundary(bytes, i) {
        lemma_last_boundary(bytes, i - 1);
    }
}

/// Find a safe UTF-8 char boundary at or before `max` bytes.
fn safe_boundary(s: &str, max: usize) -> (b: usize)
    ensures
        b == spec_safe_boundary(s@, max as int),
        b <= s.spec_bytes().len(),
        is_char_boundary(s.spec_bytes(), b as int),
{
    proof {
        encode_utf8_valid_utf8(s@);
        is_char_boundary_start_end_of_seq(s.spec_bytes());
    }
    let len = byte_length(s);
    if max >= len {
        return len;
    }
    let mut i = max;
    proof {
        lemma_last_boundary(s.spec_bytes(), max as int);
    }
    while !s.is_char_boundary(i)
        invariant
            i <= max < s.spec_bytes().len(),
            valid_utf8(s.spec_bytes()),
            last_boundary(s.spec_bytes(), i as int) == last_boundary(s.spec_bytes(), max as int),
            is_char_boundary(s.spec_bytes(), 0),
        decreases i,
    {
        i = i - 1;
    }
    proof {
        lemma_last_boundary(s.spec_bytes(), i as int);
    }
    i
}

/// The characters of `s` before byte `safe_boundary(s, max)`.
fn prefix_chars(s: &str, max: usize) -> (v: Vec<char>)
    ensures
        v@ == utf8_prefix(s@, max as int),
{
    let b = safe_boundary(s, max);
    let (head, _tail) = s.split_at(b);
    proof {
        encode_utf8_valid_utf8(s@);
        assert(encode_utf8(head@) == s.spec_bytes().take(b as int));
        encode_utf8_decode_utf8(head@);
    }
    chars_of(head)
}

/// `s` cut at `max` bytes, then `marker`, the byte length of `s` and `)`.
fn cut_and_mark(s: &str, max: usize, marker: &str) -> (r: String)
    ensures
        r@ == cut_with_marker(s@, max as int, marker@),
{
    let mut out = prefix_chars(s, max);
    push_str(&mut out, marker);
    push_decimal(&mut out, byte_length(s) as u128);
    push_str(&mut out, ")");
    string_from_chars(&out)
}

/// Truncate a string, appending a length indicator when trimmed.
pub fn truncate(s: &str, max: usize) -> (r: String)
    ensures
        r@ == spec_truncate(s@, max as int),
{
    if byte_length(s) <= max {
        return s.to_owned();
    }
    cut_and_mark(s, max, "…(len=")
}

/// Redact a token: show only the first few chars + total length.
pub fn redact_token(token: &str, prefix_len: usize) -> (r: String)
    ensures
        r@ == spec_redact_token(token@, prefix_len as int),
{
    if token.is_empty() {
        return String::from_str("(none)");
    }
    if byte_length(token) <= prefix_len {
        let mut out: Vec<char> = Vec::new();
        push_str(&mut out, "****(len=");
        push_decimal(&mut out, byte_length(token) as u128);
        push_str(&mut out, ")");
        return string_from_chars(&out);
    }
    cut_and_mark(token, prefix_len, "…(len=")
}

/// Convenience wrapper with default prefix length.
pub fn redact_token_default(token: &str) -> (r: String)
    ensures
        r@ == spec_redact_token(token@, DEFAULT_TOKEN_PREFIX_LEN as int),
{
    redact_token(token, DEFAULT_TOKEN_PREFIX_LEN)
}

/// What [`redact_url`] returns for a URL whose parse result is `parsed`.
pub open spec fn spec_redact_url(raw: Seq<char>, parsed: Option<(Seq<char>, Seq<char>, bool)>) -> Seq<char> {
    match parsed {
        Some((origin, path, has_query)) => if has_query {
            origin + path + "?<redacted>"@
        } else {
            origin + path
        },
        None => spec_truncate(raw, 80),
    }
}

/// Builds the logged form of `raw_url` from its parse result: origin and path,
/// `?<redacted>` in place of any query; an unparsable URL is truncated to 80 bytes.
pub fn redact_url_parts(raw_url: &str, parsed: Option<ParsedUrl>) -> (r: String)
    ensures
        r@ == spec_redact_url(raw_url@, parsed_view(parsed)),
{
    match parsed {
        Some(u) => {
            let mut out: Vec<char> = Vec::new();
            push_str(&mut out, u.origin.as_str());
            push_str(&mut out, u.path.as_str());
            if u.has_query {
                push_str(&mut out, "?<redacted>");
            }
            string_from_chars(&out)
        },
        None => truncate(raw_url, 80),
    }
}

/// Strip query string from a URL for safe logging.
pub fn redact_url(raw_url: &str) -> (r: String)
    ensures
        r@ == spec_redact_url(raw_url@, url_parts(raw_url@)),
{
    let parsed = parse_url(raw_url);
    redact_url_parts(raw_url, parsed)
}

/// What a cut shows of `s` is a prefix of `s` that fits in `max` bytes.
pub proof fn law_cut_shows_bounded_prefix(s: Seq<char>, max: int)
    requires
        0 <= max,
    ensures
        byte_len(utf8_prefix(s, max)) <= max,
        utf8_prefix(s, max) == s.take(utf8_prefix(s, max).len() as int),
{
    let bytes = encode_utf8(s);
    let b = spec_safe_boundary(s, max);
    is_char_boundary_start_end_of_seq(bytes);
    if max < byte_len(s) {
        lemma_last_boundary(bytes, max);
    }
    assert(is_char_boundary(bytes, b));
    assert(bytes.take(b) == bytes.subrange(0, b));
    valid_utf8_split(bytes, b);
    decode_utf8_split(bytes, b);
    let p = utf8_prefix(s, max);
    let rest = decode_utf8(bytes.subrange(b, bytes.len() as int));
    assert(s == p + rest);
    assert(s.take(p.len() as int) =~= p);
}

/// Truncation leaves a string that fits unchanged; a longer one is shown as a
/// prefix of at most `max` bytes followed by the marker and its full byte length.
pub proof fn law_truncate_shows_bounded_prefix(s: Seq<char>, max: int)
    requires
        0 <= max,
    ensures
        byte_len(s) <= max ==> spec_truncate(s, max) == s,
        byte_len(s) > max ==> {
            let p = utf8_prefix(s, max);
            &&& spec_truncate(s, max) == p + "…(len="@ + decimal(byte_len(s)) + ")"@
            &&& byte_len(p) <= max
            &&& p == s.take(p.len() as int)
        },
{
    law_cut_shows_bounded_prefix(s, max);
}

/// A redacted token never shows more than its first `prefix_len` bytes: empty
/// tokens show `(none)`, short ones only their length, longer ones a prefix of
/// at most `prefix_len` bytes and their length.
pub proof fn law_token_shows_bounded_prefix(token: Seq<char>, prefix_len: int)
    requires
        0 <= prefix_len,
    ensures
        token.len() == 0 ==> spec_redact_token(token, prefix_len) == "(none)"@,
        token.len() > 0 && byte_len(token) <= prefix_len ==> spec_redact_token(token, prefix_len)
            == "****(len="@ + decimal(byte_len(token)) + ")"@,
        token.len() > 0 && byte_len(token) > prefix_len ==> {
            let p = utf8_prefix(token, prefix_len);
            &&& spec_redact_token(token, prefix_len) == p + "…(len="@ + decimal(byte_len(token))
                + ")"@
            &&& byte_len(p) <= prefix_len
            &&& p == token.take(p.len() as int)
        },
{
    law_cut_shows_bounded_prefix(token, prefix_len);
}

/// `"key":"` — the text that opens a string-valued JSON field named `key`.
pub open spec fn key_pattern(key: Seq<char>) -> Seq<char> {
    seq!['"'] + key + seq!['"', ':', '"']
}

/// The replacement written over a sensitive value.
pub open spec fn redacted_marker() -> Seq<char> {
    seq!['<', 'r', 'e', 'd', 'a', 'c', 't', 'e', 'd', '>']
}

/// The first index `i >= from` at which `pat` occurs in `s`.
pub open spec fn find_from(s: Seq<char>, pat: Seq<char>, from: int) -> Option<int>
    decreases s.len() + 1 - from,
{
    if from < 0 || from + pat.len() > s.len() {
        None
    } else if s.subrange(from, from + pat.len()) == pat {
        Some(from)
    } else {
        find_from(s, pat, from + 1)
    }
}

/// A found occurrence really is an occurrence, at or after `from`.
pub proof fn lemma_find_from(s: Seq<char>, pat: Seq<char>, from: int)
    ensures
        find_from(s, pat, from) matches Some(i) ==> from <= i && i + pat.len() <= s.len()
            && s.subrange(i, i + pat.len()) == pat,
    decreases s.len() + 1 - from,
{
    if !(from < 0 || from + pat.len() > s.len()) && s.subrange(from, from + pat.len()) != pat {
        lemma_find_from(s, pat, from + 1);
    }
}

/// Replaces, left to right from `from`, every value that follows `pat` (up to
/// the next `"`) with `<redacted>`; scanning resumes after the closing quote.
pub open spec fn redact_key_from(s: Seq<char>, pat: Seq<char>, from: int) -> Seq<char>
    decreases s.len() - from,
{
    if from < 0 || from >= s.len() {
        s
    } else {
        match find_from(s, pat, from) {
            None => s,
            Some(start) => {
                let vs = start + pat.len();
                if vs >= s.len() {
                    s
                } else {
                    match find_from(s, seq!['"'], vs) {
                        None => s,
                        Some(end) => {
                            proof {
                                lemma_find_from(s, pat, from);
                                lemma_find_from(s, seq!['"'], vs);
                            }
                            redact_key_from(
                                s.take(vs) + redacted_marker() + s.skip(end),
                                pat,
                                vs + 11,
                            )
                        },
                    }
                }
            },
        }
    }
}

proof fn lemma_redact_keeps_prefix(s: Seq<char>, pat: Seq<char>, from: int)
    requires
        0 <= from <= s.len(),
    ensures
        from <= redact_key_from(s, pat, from).len(),
        redact_key_from(s, pat, from).take(from) == s.take(from),
    decreases s.len() - from,
{
    if from < s.len() {
        if let Some(start) = find_from(s, pat, from) {
            let vs = start + pat.len();
            if vs < s.len() {
                if let Some(end) = find_from(s, seq!['"'], vs) {
                    lemma_find_from(s, pat, from);
                    lemma_find_from(s, seq!['"'], vs);
                    let s2 = s.take(vs) + redacted_marker() + s.skip(end);
                    lemma_redact_keeps_prefix(s2, pat, vs + 11);
                    let r = redact_key_from(s2, pat, vs + 11);
                    assert(r.take(from) =~= r.take(vs + 11).take(from));
                    assert(s2.take(from) =~= s.take(from));
                }
            }
        }
    }
}

/// The first value of a key is hidden: where `pat` (a key's `"key":"`) first
/// occurs and its value has a closing quote, the output reads, up to that quote,
/// the text before the value, then `<redacted>`, then the quote.
pub proof fn law_first_value_redacted(s: Seq<char>, pat: Seq<char>)
    requires
        find_from(s, pat, 0) is Some,
        find_from(s, pat, 0)->0 + pat.len() < s.len(),
        find_from(s, seq!['"'], find_from(s, pat, 0)->0 + pat.len()) is Some,
    ensures
        ({
            let vs = find_from(s, pat, 0)->0 + pat.len();
            redact_key_from(s, pat, 0).take(vs + 11) == s.take(vs) + redacted_marker() + seq!['"']
        }),
{
    let start = find_from(s, pat, 0)->0;
    let vs = start + pat.len();
    let end = find_from(s, seq!['"'], vs)->0;
    lemma_find_from(s, pat, 0);
    lemma_find_from(s, seq!['"'], vs);
    let s2 = s.take(vs) + redacted_marker() + s.skip(end);
    lemma_redact_keeps_prefix(s2, pat, vs + 11);
    assert(s.subrange(end, end + 1) == seq!['"']);
    assert(s.skip(end)[0] == s.subrange(end, end + 1)[0]);
    assert(s2.take(vs + 11) =~= s.take(vs) + redacted_marker() + seq!['"']);
}

/// The JSON string fields `redact_body` hides, in the order it processes them.
pub open spec fn sensitive_keys() -> Seq<Seq<char>> {
    seq!["context_token"@, "bot_token"@, "token"@, "authorization"@, "Authorization"@]
}

/// Every value of every sensitive key redacted, key by key in `sensitive_keys()` order.
pub open spec fn redact_sensitive(s: Seq<char>) -> Seq<char> {
    redact_keys(s, sensitive_keys())
}

/// Redacts the values of each of `keys` in turn.
pub open spec fn redact_keys(s: Seq<char>, keys: Seq<Seq<char>>) -> Seq<char>
    decreases keys.len(),
{
    if keys.len() == 0 {
        s
    } else {
        redact_keys(redact_key_from(s, key_pattern(keys[0]), 0), keys.drop_first())
    }
}

/// What [`redact_body`] returns.
pub open spec fn spec_redact_body(body: Seq<char>, max_len: int) -> Seq<char> {
    if body.len() == 0 {
        "(empty)"@
    } else {
        let r = redact_sensitive(body);
        if byte_len(r) <= max_len {
            r
        } else {
            cut_with_marker(r, max_len, "…(truncated, totalLen="@)
        }
    }
}

/// Whether `pat` occurs in `s` at index `i` (with `i + pat.len() <= s.len()`).
fn occurs_at(s: &Vec<char>, pat: &Vec<char>, i: usize) -> (r: bool)
    requires
        i + pat@.len() <= s@.len(),
    ensures
        r == (s@.subrange(i as int, i + pat@.len()) == pat@),
{
    let mut k: usize = 0;
    while k < pat.len()
        invariant
            k <= pat@.len(),
            i + pat@.len() <= s.len(),
            forall|j: int| 0 <= j < k ==> s@[i + j] == pat@[j],
        decreases pat@.len() - k,
    {
        if s[i + k] != pat[k] {
            assert(s@.subrange(i as int, i + pat@.len())[k as int] != pat@[k as int]);
            return false;
        }
        k = k + 1;
    }
    assert(s@.subrange(i as int, i + pat@.len()) =~= pat@);
    true
}

/// Executable [`find_from`].
fn find_from_exec(s: &Vec<char>, pat: &Vec<char>, from: usize) -> (r: Option<usize>)
    ensures
        match r {
            Some(i) => find_from(s@, pat@, from as int) == Some(i as int),
            None => find_from(s@, pat@, from as int) is None,
        },
{
    let mut i = from;
    while i <= s.len() && pat.len() <= s.len() - i
        invariant
            from <= i,
            find_from(s@, pat@, from as int) == find_from(s@, pat@, i as int),
        decreases s@.len() + 1 - i,
    {
        if occurs_at(s, pat, i) {
            return Some(i);
        }
        if i == s.len() {
            assert(s@.subrange(i as int, i + pat@.len()) =~= pat@);
        }
        i = i + 1;
    }
    None
}

/// Copies `s[..vs]`, then `<redacted>`, then `s[end..]`.
fn splice_marker(s: &Vec<char>, vs: usize, end: usize) -> (r: Vec<char>)
    requires
        vs <= end <= s@.len(),
    ensures
        r@ == s@.take(vs as int) + redacted_marker() + s@.skip(end as int),
{
    let mut r: Vec<char> = Vec::new();
    let mut i: usize = 0;
    while i < vs
        invariant
            i <= vs <= end <= s@.len(),
            r@ == s@.take(i as int),
        decreases vs - i,
    {
        r.push(s[i]);
        assert(s@.take(i + 1) =~= s@.take(i as int).push(s@[i as int]));
        i = i + 1;
    }
    push_str(&mut r, "<redacted>");
    proof {
        reveal_strlit("<redacted>");
        assert("<redacted>"@ =~= redacted_marker());
    }
    let ghost mid = r@;
    let mut j: usize = end;
    while j < s.len()
        invariant
            end <= j <= s@.len(),
            r@ == mid + s@.subrange(end as int, j as int),
        decreases s@.len() - j,
    {
        r.push(s[j]);
        assert(s@.subrange(end as int, j + 1) =~= s@.subrange(end as int, j as int).push(
            s@[j as int],
        ));
        j = j + 1;
    }
    assert(s@.subrange(end as int, s@.len() as int) =~= s@.skip(end as int));
    r
}

/// Executable [`redact_key_from`] starting at 0.
fn redact_key(body: Vec<char>, pat: &Vec<char>) -> (r: Vec<char>)
    ensures
        r@ == redact_key_from(body@, pat@, 0),
{
    let ghost goal = redact_key_from(body@, pat@, 0);
    let mut cur = body;
    let mut from: usize = 0;
    let mut quote: Vec<char> = Vec::new();
    quote.push('"');
    assert(quote@ =~= seq!['"']);
    loop
        invariant
            redact_key_from(cur@, pat@, from as int) == goal,
            goal == redact_key_from(body@, pat@, 0),
            quote@ == seq!['"'],
        decreases cur@.len() - from,
    {
        if from >= cur.len() {
            assert(redact_key_from(cur@, pat@, from as int) == cur@);
            return cur;
        }
        match find_from_exec(&cur, pat, from) {
            None => {
                assert(redact_key_from(cur@, pat@, from as int) == cur@);
                return cur;
            },
            Some(start) => {
                proof {
                    lemma_find_from(cur@, pat@, from as int);
                }
                let vs = start + pat.len();
                if vs >= cur.len() {
                    assert(redact_key_from(cur@, pat@, from as int) == cur@);
                    return cur;
                }
                match find_from_exec(&cur, &quote, vs) {
                    None => {
                        assert(redact_key_from(cur@, pat@, from as int) == cur@);
                        return cur;
                    },
                    Some(end) => {
                        proof {
                            lemma_find_from(cur@, seq!['"'], vs as int);
                        }
                        let next = splice_marker(&cur, vs, end);
                        let nlen = next.len();
                        assert(nlen >= vs + 11);
                        cur = next;
                        from = vs + 11;
                    },
                }
            },
        }
    }
}

/// The characters of `"key":"`.
fn pattern_for(key: &str) -> (p: Vec<char>)
    ensures
        p@ == key_pattern(key@),
{
    let mut p: Vec<char> = Vec::new();
    p.push('"');
    push_str(&mut p, key);
    p.push('"');
    p.push(':');
    p.push('"');
    assert(p@ =~= key_pattern(key@));
    p
}

/// Truncate and redact sensitive fields in a JSON body string.
pub fn redact_body(body: &str, max_len: usize) -> (r: String)
    ensures
        r@ == spec_redact_body(body@, max_len as int),
{
    if body.is_empty() {
        return String::from_str("(empty)");
    }
    let mut red = chars_of(body);
    red = redact_key(red, &pattern_for("context_token"));
    red = redact_key(red, &pattern_for("bot_token"));
    red = redact_key(red, &pattern_for("token"));
    red = redact_key(red, &pattern_for("authorization"));
    red = redact_key(red, &pattern_for("Authorization"));
    proof {
        let ks = sensitive_keys();
        assert(ks.drop_first().drop_first().drop_first().drop_first().drop_first().len() == 0);
        assert(red@ == redact_sensitive(body@)) by {
            reveal_with_fuel(redact_keys, 6);
            assert(ks[0] == "context_token"@);
            assert(ks.drop_first()[0] == "bot_token"@);
            assert(ks.drop_first().drop_first()[0] == "token"@);
            assert(ks.drop_first().drop_first().drop_first()[0] == "authorization"@);
            assert(ks.drop_first().drop_first().drop_first().drop_first()[0] == "Authorization"@);
        }
    }
    let rs = string_from_chars(&red);
    if byte_length(rs.as_str()) <= max_len {
        return rs;
    }
    cut_and_mark(rs.as_str(), max_len, "…(truncated, totalLen=")
}

/// Convenience wrapper with default max length.
pub fn redact_body_default(body: &str) -> (r: String)
    ensures
        r@ == spec_redact_body(body@, DEFAULT_BODY_MAX_LEN as int),
{
    redact_body(body, DEFAULT_BODY_MAX_LEN)
}

} // verus!
