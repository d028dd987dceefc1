//! ID and filename generation utilities.
use vstd::prelude::*;
use rand::Rng;
use crate::util::text::{decimal, hex_lower, push_decimal, push_hex_lower, push_str, string_from_chars};
use crate::util::unix_time_millis;

verus! {

#[verifier::external_type_specification]
#[verifier::external_body]
pub struct ExThreadRng(rand::rngs::ThreadRng);

/// The thread-local generator, through `rand::rng()`.
/// Trusted: nothing is stated of it.
#[verifier::external_body]
fn thread_rng() -> rand::rngs::ThreadRng {
    rand::rng()
}

/// One random byte, through `Rng::random::<u8>`.
/// Trusted: nothing is stated of the value, which is random.
#[verifier::external_body]
fn random_u8(rng: &mut rand::rngs::ThreadRng) -> u8 {
    rng.random()
}

/// A random 16-byte key, through `Rng::fill` on `rand::rng()`.
/// Trusted: nothing is stated of the value, which is random.
#[verifier::external_body]
pub(crate) fn random_key() -> [u8; 16] {
    let mut key = [0u8; 16];
    rand::rng().fill(&mut key);
    key
}

/// `n` random bytes.
pub fn random_bytes(n: usize) -> (v: Vec<u8>)
    ensures
        v@.len() == n,
{
    let mut rng = thread_rng();
    let mut v: Vec<u8> = Vec::new();
    let mut i: usize = 0;
    while i < n
        invariant
            i <= n,
            v@.len() == i,
        decreases n - i,
    {
        v.push(random_u8(&mut rng));
        i = i + 1;
    }
    v
}

/// Lower-case hex encoding, two digits per byte (`format!("{b:02x}")` for each byte).
pub fn hex_encode(bytes: &[u8]) -> (s: String)
    ensures
        s@ == hex_lower(bytes@),
{
    let mut out: Vec<char> = Vec::new();
    push_hex_lower(&mut out, bytes);
    assert(seq![] + hex_lower(bytes@) =~= hex_lower(bytes@));
    string_from_chars(&out)
}

/// True when `s` is the lower-case hex encoding of some `n` bytes.
pub open spec fn is_hex_of_len(s: Seq<char>, n: nat) -> bool {
    exists|b: Seq<u8>| b.len() == n && s == hex_lower(b)
}

/// Generate `n` random bytes as a hex string (2*n chars).
pub fn random_hex(n: usize) -> (s: String)
    ensures
        is_hex_of_len(s@, n as nat),
{
    let bytes = random_bytes(n);
    let s = hex_encode(bytes.as_slice());
    assert(bytes@.len() == n && s@ == hex_lower(bytes@));
    s
}

/// `{prefix}:{ts}-{hex}`.
pub open spec fn id_text(prefix: Seq<char>, ts: nat, hex: Seq<char>) -> Seq<char> {
    prefix + seq![':'] + decimal(ts) + seq!['-'] + hex
}

/// `{prefix}-{ts}-{hex}{ext}`.
pub open spec fn temp_name_text(prefix: Seq<char>, ts: nat, hex: Seq<char>, ext: Seq<char>) -> Seq<char> {
    prefix + seq!['-'] + decimal(ts) + seq!['-'] + hex + ext
}

/// True when `s` is an ID for `prefix`: some timestamp and 4 random bytes in hex.
pub open spec fn is_generated_id(prefix: Seq<char>, s: Seq<char>) -> bool {
    exists|ts: nat, b: Seq<u8>| b.len() == 4 && s == id_text(prefix, ts, hex_lower(b))
}

/// Formats an ID from its parts: `{prefix}:{ts}-{hex}`.
pub fn format_id(prefix: &str, ts: u128, hex: &str) -> (s: String)
    ensures
        s@ == id_text(prefix@, ts as nat, hex@),
{
    let mut out: Vec<char> = Vec::new();
    push_str(&mut out, prefix);
    out.push(':');
    push_decimal(&mut out, ts);
    out.push('-');
    push_str(&mut out, hex);
    assert(out@ =~= id_text(prefix@, ts as nat, hex@));
    string_from_chars(&out)
}

/// Formats a temporary file name from its parts: `{prefix}-{ts}-{hex}{ext}`.
pub fn format_temp_file_name(prefix: &str, ts: u128, hex: &str, ext: &str) -> (s: String)
    ensures
        s@ == temp_name_text(prefix@, ts as nat, hex@, ext@),
{
    let mut out: Vec<char> = Vec::new();
    push_str(&mut out, prefix);
    out.push('-');
    push_decimal(&mut out, ts);
    out.push('-');
    push_str(&mut out, hex);
    push_str(&mut out, ext);
    assert(out@ =~= temp_name_text(prefix@, ts as nat, hex@, ext@));
    string_from_chars(&out)
}

/// Generate a prefixed unique ID: `{prefix}:{timestamp}-{8hex}`.
pub fn generate_id(prefix: &str) -> (s: String)
    ensures
        is_generated_id(prefix@, s@),
{
    let ts = unix_time_millis();
    let hex = random_hex(4);
    let s = format_id(prefix, ts, hex.as_str());
    let ghost b = choose|b: Seq<u8>| b.len() == 4 && hex@ == hex_lower(b);
    assert(b.len() == 4 && s@ == id_text(prefix@, ts as nat, hex_lower(b)));
    s
}

/// Generate a temporary file name: `{prefix}-{timestamp}-{8hex}{ext}`.
pub fn temp_file_name(prefix: &str, ext: &str) -> (s: String)
    ensures
        exists|ts: nat, b: Seq<u8>|
            b.len() == 4 && s@ == temp_name_text(prefix@, ts, hex_lower(b), ext@),
{
    let ts = unix_time_millis();
    let hex = random_hex(4);
    let s = format_temp_file_name(prefix, ts, hex.as_str(), ext);
    let ghost b = choose|b: Seq<u8>| b.len() == 4 && hex@ == hex_lower(b);
    assert(b.len() == 4 && s@ == temp_name_text(prefix@, ts as nat, hex_lower(b), ext@));
    s
}

} // verus!
