//! AES-128-ECB encryption/decryption with PKCS7 padding.
use vstd::prelude::*;
use vstd::utf8::*;
use vstd::string::{StringExecFns, StringSliceAdditionalSpecFns};
use cipher::{BlockDecryptMut, BlockEncryptMut, KeyInit};
use crate::error::Error;
use crate::util::b64::{base64_decode, base64_decode_str};
use crate::util::text::{
    decimal, hex_digit_char, hex_lower, lemma_encode_utf8_concat, push_decimal, push_str,
    string_from_chars,
};

verus! {

broadcast use vstd::utf8::group_utf8_lib;

/// Ciphertext size after PKCS7 padding to a 16-byte boundary: always at least one byte of padding.
pub open spec fn spec_padded_size(n: int) -> int {
    ((n + 1 + 15) / 16) * 16
}

/// Compute ciphertext size after PKCS7 padding to 16-byte boundary.
pub fn padded_size(plaintext_size: usize) -> (r: usize)
    requires
        plaintext_size + 16 <= usize::MAX,
    ensures
        r == spec_padded_size(plaintext_size as int),
        r % 16 == 0,
        plaintext_size < r <= plaintext_size + 16,
{
    (plaintext_size + 1 + 15) / 16 * 16
}

/// The ciphertext of `plaintext` under AES-128-ECB with PKCS7 padding and `key`,
/// as the `aes`/`ecb`/`cipher` crates compute it.
pub uninterp spec fn aes128_ecb_encrypt(plaintext: Seq<u8>, key: Seq<u8>) -> Seq<u8>;

/// The plaintext that AES-128-ECB decryption with `key` and PKCS7 unpadding
/// recovers from `ciphertext`; `None` when the padding check fails.
pub uninterp spec fn aes128_ecb_decrypt(ciphertext: Seq<u8>, key: Seq<u8>) -> Option<Seq<u8>>;

/// Encrypts with `ecb::Encryptor<Aes128>` and `encrypt_padded_vec_mut::<Pkcs7>`.
/// Trusted: the result is the named ciphertext, whose length is the PKCS7-padded
/// length, and which decryption with the same key turns back into `plaintext`.
#[verifier::external_body]
fn ecb_encrypt_pkcs7(plaintext: &[u8], key: &[u8; 16]) -> (ct: Vec<u8>)
    ensures
        ct@ == aes128_ecb_encrypt(plaintext@, key@),
        ct@.len() == spec_padded_size(plaintext@.len() as int),
        aes128_ecb_decrypt(ct@, key@) == Some(plaintext@),
{
    ecb::Encryptor::<aes::Aes128>::new(key.into()).encrypt_padded_vec_mut::<
        cipher::block_padding::Pkcs7,
    >(plaintext)
}

/// Decrypts with `ecb::Decryptor<Aes128>` and `decrypt_padded_vec_mut::<Pkcs7>`.
/// Trusted: the result is the named plaintext, `None` exactly when unpadding fails,
/// which the crate documents for every input whose length is not a multiple of
/// the 16-byte block.
#[verifier::external_body]
fn ecb_decrypt_pkcs7(ciphertext: &[u8], key: &[u8; 16]) -> (pt: Option<Vec<u8>>)
    ensures
        match pt {
            Some(p) => aes128_ecb_decrypt(ciphertext@, key@) == Some(p@),
            None => aes128_ecb_decrypt(ciphertext@, key@) is None,
        },
        ciphertext@.len() % 16 != 0 ==> pt is None,
{
    ecb::Decryptor::<aes::Aes128>::new(key.into()).decrypt_padded_vec_mut::<
        cipher::block_padding::Pkcs7,
    >(ciphertext).ok()
}

/// Encrypt data with AES-128-ECB + PKCS7 padding.
pub fn encrypt(plaintext: &[u8], key: &[u8; 16]) -> (r: Result<Vec<u8>, Error>)
    ensures
        r matches Ok(ct) && ct@ == aes128_ecb_encrypt(plaintext@, key@),
        r matches Ok(ct) && ct@.len() == spec_padded_size(plaintext@.len() as int),
        r matches Ok(ct) && aes128_ecb_decrypt(ct@, key@) == Some(plaintext@),
{
    Ok(ecb_encrypt_pkcs7(plaintext, key))
}

/// Decrypt AES-128-ECB + PKCS7 padded data.
pub fn decrypt(ciphertext: &[u8], key: &[u8; 16]) -> (r: Result<Vec<u8>, Error>)
    ensures
        match aes128_ecb_decrypt(ciphertext@, key@) {
            Some(p) => r matches Ok(v) && v@ == p,
            None => r matches Err(Error::Crypto(m)) && m@ == "AES-ECB decrypt: Unpad Error"@,
        },
        ciphertext@.len() % 16 != 0 ==> r matches Err(Error::Crypto(_)),
{
    match ecb_decrypt_pkcs7(ciphertext, key) {
        Some(p) => Ok(p),
        None => Err(Error::Crypto(String::from_str("AES-ECB decrypt: Unpad Error"))),
    }
}

/// Value of an ASCII hex digit byte.
pub open spec fn hex_value(b: u8) -> Option<u8> {
    if 48 <= b <= 57 {
        Some((b - 48) as u8)
    } else if 97 <= b <= 102 {
        Some((b - 87) as u8)
    } else if 65 <= b <= 70 {
        Some((b - 55) as u8)
    } else {
        None
    }
}

/// What `u8::from_str_radix(_, 16)` gives for the two bytes `b0 b1`: a leading
/// `+` is a sign, otherwise both must be hex digits.
pub open spec fn pair_value(b0: u8, b1: u8) -> Option<u8> {
    if b0 == 43 {
        hex_value(b1)
    } else {
        match (hex_value(b0), hex_value(b1)) {
            (Some(h), Some(l)) => Some((h * 16 + l) as u8),
            _ => None,
        }
    }
}

/// Decoding of consecutive byte pairs; `None` at the first pair that is not a number.
pub open spec fn decode_hex_pairs(bytes: Seq<u8>) -> Option<Seq<u8>>
    decreases bytes.len(),
{
    if bytes.len() < 2 {
        Some(seq![])
    } else {
        match pair_value(bytes[0], bytes[1]) {
            None => None,
            Some(v) => match decode_hex_pairs(bytes.skip(2)) {
                Some(rest) => Some(seq![v] + rest),
                None => None,
            },
        }
    }
}

/// Offset of the first pair that does not decode.
pub open spec fn first_bad_pair(bytes: Seq<u8>) -> Option<int>
    decreases bytes.len(),
{
    if bytes.len() < 2 {
        None
    } else if pair_value(bytes[0], bytes[1]) is None {
        Some(0)
    } else {
        match first_bad_pair(bytes.skip(2)) {
            Some(k) => Some(k + 2),
            None => None,
        }
    }
}

/// What [`hex_to_bytes`] returns for the UTF-8 bytes of its argument.
pub open spec fn spec_hex_to_bytes(bytes: Seq<u8>) -> core::result::Result<Seq<u8>, Seq<char>> {
    if bytes.len() % 2 != 0 {
        Err("hex string must have even length"@)
    } else {
        match decode_hex_pairs(bytes) {
            Some(v) => Ok(v),
            None => Err("hex parse: invalid digit found in string"@),
        }
    }
}

/// The view of a byte-vector result whose error is a crypto message.
pub open spec fn crypto_view(r: core::result::Result<Vec<u8>, Error>) -> core::result::Result<Seq<u8>, Seq<char>> {
    match r {
        Ok(v) => Ok(v@),
        Err(Error::Crypto(m)) => Err(m@),
        Err(_) => Err(seq![]),
    }
}

fn hex_value_exec(b: u8) -> (r: Option<u8>)
    ensures
        r == hex_value(b),
{
    if 48 <= b && b <= 57 {
        Some(b - 48)
    } else if 97 <= b && b <= 102 {
        Some(b - 87)
    } else if 65 <= b && b <= 70 {
        Some(b - 55)
    } else {
        None
    }
}

fn pair_value_exec(b0: u8, b1: u8) -> (r: Option<u8>)
    ensures
        r == pair_value(b0, b1),
{
    if b0 == 43 {
        hex_value_exec(b1)
    } else {
        match (hex_value_exec(b0), hex_value_exec(b1)) {
            (Some(h), Some(l)) => Some(h * 16 + l),
            _ => None,
        }
    }
}

proof fn lemma_decode_split(bytes: Seq<u8>, i: int)
    requires
        0 <= i,
        i % 2 == 0,
        i + 2 <= bytes.len(),
        pair_value(bytes[i], bytes[i + 1]) is Some,
    ensures
        bytes.skip(i).skip(2) == bytes.skip(i + 2),
        decode_hex_pairs(bytes.skip(i)) == match decode_hex_pairs(bytes.skip(i + 2)) {
            Some(rest) => Some(seq![pair_value(bytes[i], bytes[i + 1])->0] + rest),
            None => None,
        },
{
    assert(bytes.skip(i).skip(2) =~= bytes.skip(i + 2));
}

/// Decode a hex string (two digits per byte, either case).
pub fn hex_to_bytes(hex: &str) -> (r: Result<Vec<u8>, Error>)
    requires
        hex.spec_bytes().len() % 2 == 0 ==> (first_bad_pair(hex.spec_bytes()) matches Some(k)
            ==> is_char_boundary(hex.spec_bytes(), k + 2)),
    ensures
        crypto_view(r) == spec_hex_to_bytes(hex.spec_bytes()),
        r is Err ==> r matches Err(Error::Crypto(_)),
{
    let bytes = hex.as_bytes();
    let n = bytes.len();
    if n % 2 != 0 {
        return Err(Error::Crypto(String::from_str("hex string must have even length")));
    }
    let mut out: Vec<u8> = Vec::new();
    let mut i: usize = 0;
    assert(bytes@.skip(0) =~= bytes@);
    while i < n
        invariant
            n == bytes@.len(),
            bytes@ == hex.spec_bytes(),
            n % 2 == 0,
            i % 2 == 0,
            i <= n,
            decode_hex_pairs(bytes@) == match decode_hex_pairs(bytes@.skip(i as int)) {
                Some(rest) => Some(out@ + rest),
                None => None,
            },
        decreases n - i,
    {
        match pair_value_exec(bytes[i], bytes[i + 1]) {
            None => {
                assert(decode_hex_pairs(bytes@.skip(i as int)) is None);
                return Err(Error::Crypto(String::from_str("hex parse: invalid digit found in string")));
            },
            Some(v) => {
                proof {
                    lemma_decode_split(bytes@, i as int);
                    let ghost rest = decode_hex_pairs(bytes@.skip(i + 2));
                    if rest is Some {
                        assert(out@.push(v) + rest->0 =~= out@ + (seq![v] + rest->0));
                    }
                }
                out.push(v);
                i = i + 2;
            },
        }
    }
    assert(bytes@.skip(n as int) =~= seq![]);
    assert(out@ + seq![] =~= out@);
    Ok(out)
}

/// UTF-8 validation with `std::str::from_utf8`.
/// Trusted: std documents that it succeeds exactly on valid UTF-8.
#[verifier::external_body]
fn is_valid_utf8(bytes: &[u8]) -> (r: bool)
    ensures
        r == valid_utf8(bytes@),
{
    std::str::from_utf8(bytes).is_ok()
}

/// True when every byte is an ASCII hex digit.
pub open spec fn all_hex_digits(bytes: Seq<u8>) -> bool {
    forall|i: int| 0 <= i < bytes.len() ==> hex_value(#[trigger] bytes[i]) is Some
}

/// The message for a decoded key of the wrong shape.
pub open spec fn key_length_message(n: nat) -> Seq<char> {
    "aes_key must decode to 16 raw bytes or 32-char hex string, got "@ + decimal(n) + " bytes"@
}

/// What [`parse_aes_key`] makes of base64-decoded bytes: 16 raw bytes, or 32 hex
/// digits that decode to 16 bytes; otherwise the error message.
pub open spec fn key_from_decoded(d: Seq<u8>) -> core::result::Result<Seq<u8>, Seq<char>> {
    if d.len() == 16 {
        Ok(d)
    } else if d.len() == 32 && !valid_utf8(d) {
        Err("aes_key hex not valid UTF-8"@)
    } else if d.len() == 32 && all_hex_digits(d) {
        Ok(decode_hex_pairs(d)->0)
    } else {
        Err(key_length_message(d.len()))
    }
}

/// The view of a key result whose error is a crypto message.
pub open spec fn key_view(r: core::result::Result<[u8; 16], Error>) -> core::result::Result<Seq<u8>, Seq<char>> {
    match r {
        Ok(k) => Ok(k@),
        Err(Error::Crypto(m)) => Err(m@),
        Err(_) => Err(seq![]),
    }
}

proof fn lemma_hex_digits_decode(d: Seq<u8>)
    requires
        all_hex_digits(d),
        d.len() % 2 == 0,
    ensures
        decode_hex_pairs(d) matches Some(v) && v.len() * 2 == d.len(),
        first_bad_pair(d) is None,
    decreases d.len(),
{
    if d.len() >= 2 {
        let t = d.skip(2);
        assert(forall|i: int| 0 <= i < t.len() ==> t[i] == d[i + 2]);
        assert(hex_value(d[0]) is Some && hex_value(d[1]) is Some);
        assert(d[0] != 43);
        lemma_hex_digits_decode(t);
    }
}

/// Copies 16 bytes into a key array.
fn key_array(b: &[u8]) -> (k: [u8; 16])
    requires
        b@.len() == 16,
    ensures
        k@ == b@,
{
    let mut k = [0u8; 16];
    let mut i: usize = 0;
    while i < 16
        invariant
            i <= 16,
            b@.len() == 16,
            forall|j: int| 0 <= j < i ==> k@[j] == b@[j],
        decreases 16 - i,
    {
        k[i] = b[i];
        i = i + 1;
    }
    assert(k@ =~= b@);
    k
}

/// The byte of the lower-case hex digit for `d < 16`.
pub open spec fn hex_digit_byte(d: nat) -> u8 {
    if d < 10 {
        (d + 48) as u8
    } else {
        (d + 87) as u8
    }
}

/// The UTF-8 bytes of [`hex_lower`]: two ASCII digits per byte.
pub open spec fn hex_ascii(bytes: Seq<u8>) -> Seq<u8>
    decreases bytes.len(),
{
    if bytes.len() == 0 {
        seq![]
    } else {
        hex_ascii(bytes.drop_last()).push(hex_digit_byte((bytes.last() / 16) as nat)).push(
            hex_digit_byte((bytes.last() % 16) as nat),
        )
    }
}

proof fn lemma_hex_digit_encodes(d: nat)
    requires
        d < 16,
    ensures
        encode_utf8(seq![hex_digit_char(d)]) == seq![hex_digit_byte(d)],
{
    let b = hex_digit_byte(d);
    assert(b < 128);
    let c = hex_digit_char(d);
    assert(c as u32 == b as u32);
    let u = c as u32;
    assert(u < 128 ==> (u & 0x7F) as u8 == u as u8) by (bit_vector);
    assert(encode_utf8(seq![c].drop_first()) == Seq::<u8>::empty()) by {
        assert(seq![c].drop_first() =~= Seq::<char>::empty());
    }
    assert(encode_utf8(seq![c]) =~= seq![b]);
}

proof fn lemma_hex_lower_encodes(k: Seq<u8>)
    ensures
        encode_utf8(hex_lower(k)) == hex_ascii(k),
    decreases k.len(),
{
    if k.len() > 0 {
        let p = k.drop_last();
        let c1 = hex_digit_char((k.last() / 16) as nat);
        let c2 = hex_digit_char((k.last() % 16) as nat);
        lemma_hex_lower_encodes(p);
        lemma_hex_digit_encodes((k.last() / 16) as nat);
        lemma_hex_digit_encodes((k.last() % 16) as nat);
        assert(hex_lower(k) =~= hex_lower(p) + (seq![c1] + seq![c2]));
        lemma_encode_utf8_concat(hex_lower(p), seq![c1] + seq![c2]);
        lemma_encode_utf8_concat(seq![c1], seq![c2]);
        assert(hex_ascii(k) =~= hex_ascii(p) + (seq![hex_digit_byte((k.last() / 16) as nat)]
            + seq![hex_digit_byte((k.last() % 16) as nat)]));
    }
}

proof fn lemma_hex_ascii_index(k: Seq<u8>)
    ensures
        hex_ascii(k).len() == 2 * k.len(),
        forall|i: int|
            0 <= i < k.len() ==> hex_ascii(k)[2 * i] == hex_digit_byte((k[i] / 16) as nat)
                && hex_ascii(k)[2 * i + 1] == hex_digit_byte((k[i] % 16) as nat),
    decreases k.len(),
{
    if k.len() > 0 {
        let p = k.drop_last();
        lemma_hex_ascii_index(p);
        let h = hex_ascii(k);
        let hp = hex_ascii(p);
        assert(h == hp.push(hex_digit_byte((k.last() / 16) as nat)).push(
            hex_digit_byte((k.last() % 16) as nat),
        ));
        assert forall|i: int| 0 <= i < k.len() implies h[2 * i] == hex_digit_byte(
            (k[i] / 16) as nat,
        ) && h[2 * i + 1] == hex_digit_byte((k[i] % 16) as nat) by {
            if i < p.len() {
                assert(p[i] == k[i]);
                assert(h[2 * i] == hp[2 * i]);
                assert(h[2 * i + 1] == hp[2 * i + 1]);
            } else {
                assert(i == k.len() - 1);
                assert(k.last() == k[i]);
            }
        }
    }
}

proof fn lemma_hex_digit_pair(b: u8)
    ensures
        pair_value(hex_digit_byte((b / 16) as nat), hex_digit_byte((b % 16) as nat)) == Some(b),
        hex_value(hex_digit_byte((b / 16) as nat)) is Some,
        hex_value(hex_digit_byte((b % 16) as nat)) is Some,
{
}

proof fn lemma_decode_pairs_indexed(d: Seq<u8>, k: Seq<u8>)
    requires
        d.len() == 2 * k.len(),
        forall|i: int| 0 <= i < k.len() ==> pair_value(d[2 * i], d[2 * i + 1]) == Some(k[i]),
    ensures
        decode_hex_pairs(d) == Some(k),
    decreases k.len(),
{
    if k.len() > 0 {
        let d2 = d.skip(2);
        let k2 = k.skip(1);
        assert forall|i: int| 0 <= i < k2.len() implies pair_value(d2[2 * i], d2[2 * i + 1])
            == Some(k2[i]) by {
            assert(pair_value(d[2 * (i + 1)], d[2 * (i + 1) + 1]) == Some(k[i + 1]));
        }
        lemma_decode_pairs_indexed(d2, k2);
        assert(pair_value(d[0], d[1]) == Some(k[0]));
        assert(seq![k[0]] + k2 =~= k);
    } else {
        assert(k =~= seq![]);
    }
}

/// A 16-byte key written as lower-case hex and UTF-8 encoded (the form an
/// upload sends it in) is read back by [`parse_aes_key`]'s rule as the same key.
pub proof fn law_hex_key_parses_back(k: Seq<u8>)
    requires
        k.len() == 16,
    ensures
        key_from_decoded(encode_utf8(hex_lower(k))) == Ok::<Seq<u8>, Seq<char>>(k),
{
    let d = encode_utf8(hex_lower(k));
    lemma_hex_lower_encodes(k);
    lemma_hex_ascii_index(k);
    assert forall|i: int| 0 <= i < k.len() implies pair_value(d[2 * i], d[2 * i + 1]) == Some(k[i]) by {
        lemma_hex_digit_pair(k[i]);
    }
    assert forall|j: int| 0 <= j < d.len() implies hex_value(#[trigger] d[j]) is Some by {
        let i = j / 2;
        lemma_hex_digit_pair(k[i]);
        assert(j == 2 * i || j == 2 * i + 1);
    }
    lemma_decode_pairs_indexed(d, k);
    encode_utf8_valid_utf8(hex_lower(k));
}

/// The key for base64-decoded bytes (the part of [`parse_aes_key`] after decoding).
pub fn key_from_decoded_bytes(decoded: &[u8]) -> (r: Result<[u8; 16], Error>)
    ensures
        key_view(r) == key_from_decoded(decoded@),
        r is Err ==> r matches Err(Error::Crypto(_)),
{
    let n = decoded.len();
    if n == 16 {
        return Ok(key_array(decoded));
    }
    if n == 32 {
        if !is_valid_utf8(decoded) {
            return Err(Error::Crypto(String::from_str("aes_key hex not valid UTF-8")));
        }
        let mut all_hex = true;
        let mut i: usize = 0;
        while i < n
            invariant
                i <= n == decoded@.len(),
                all_hex == (forall|j: int| 0 <= j < i ==> hex_value(#[trigger] decoded@[j]) is Some),
            decreases n - i,
        {
            if hex_value_exec(decoded[i]).is_none() {
                all_hex = false;
            }
            i = i + 1;
        }
        if all_hex {
            proof {
                lemma_hex_digits_decode(decoded@);
            }
            let mut bytes: Vec<u8> = Vec::new();
            let mut j: usize = 0;
            assert(decoded@.skip(0) =~= decoded@);
            assert(bytes@ + decode_hex_pairs(decoded@)->0 =~= decode_hex_pairs(decoded@)->0);
            while j < 16
                invariant
                    j <= 16,
                    n == 32 == decoded@.len(),
                    all_hex_digits(decoded@),
                    decode_hex_pairs(decoded@) == match decode_hex_pairs(decoded@.skip(2 * j as int)) {
                        Some(rest) => Some(bytes@ + rest),
                        None => None,
                    },
                decreases 16 - j,
            {
                let v = pair_value_exec(decoded[2 * j], decoded[2 * j + 1]);
                proof {
                    lemma_decode_split(decoded@, 2 * j as int);
                    lemma_hex_digits_decode(decoded@.skip(2 * j + 2));
                    let rest = decode_hex_pairs(decoded@.skip(2 * j + 2))->0;
                    assert(bytes@.push(v->0) + rest =~= bytes@ + (seq![v->0] + rest));
                }
                bytes.push(v.unwrap());
                j = j + 1;
            }
            assert(decoded@.skip(32) =~= seq![]);
            assert(bytes@ + seq![] =~= bytes@);
            return Ok(key_array(bytes.as_slice()));
        }
    }
    let mut msg: Vec<char> = Vec::new();
    push_str(&mut msg, "aes_key must decode to 16 raw bytes or 32-char hex string, got ");
    push_decimal(&mut msg, n as u128);
    push_str(&mut msg, " bytes");
    Err(Error::Crypto(string_from_chars(&msg)))
}

/// What [`parse_aes_key`] returns, over the crate's base64 decoding of the input:
/// the key (or its shape error) for decoded bytes, else the decoding error's
/// text after `base64 decode aes_key: `.
pub open spec fn spec_parse_aes_key(s: Seq<char>) -> core::result::Result<Seq<u8>, Seq<char>> {
    match base64_decode(s) {
        Ok(d) => key_from_decoded(d),
        Err(m) => Err("base64 decode aes_key: "@ + m),
    }
}

/// Parse a base64-encoded AES key into 16 raw bytes.
///
/// Two encodings exist:
/// - base64 → 16 raw bytes (images)
/// - base64 → 32 hex chars → 16 bytes (file/voice/video)
pub fn parse_aes_key(aes_key_base64: &str) -> (r: Result<[u8; 16], Error>)
    ensures
        key_view(r) == spec_parse_aes_key(aes_key_base64@),
        r is Err ==> r matches Err(Error::Crypto(_)),
{
    match base64_decode_str(aes_key_base64) {
        Ok(decoded) => key_from_decoded_bytes(decoded.as_slice()),
        Err(e) => {
            let mut msg: Vec<char> = Vec::new();
            push_str(&mut msg, "base64 decode aes_key: ");
            push_str(&mut msg, e.as_str());
            Err(Error::Crypto(string_from_chars(&msg)))
        },
    }
}

/// A base64 key that decodes to exactly 16 bytes is those 16 bytes, unchanged
/// and in order.
pub proof fn law_raw_key_kept(s: Seq<char>, d: Seq<u8>)
    requires
        d.len() == 16,
    ensures
        key_from_decoded(d) == Ok::<Seq<u8>, Seq<char>>(d),
        base64_decode(s) == Ok::<Seq<u8>, Seq<char>>(d) ==> spec_parse_aes_key(s) == Ok::<
            Seq<u8>,
            Seq<char>,
        >(d),
{
}

} // verus!
