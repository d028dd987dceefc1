use base64::Engine;
use weixin_agent::cdn::aes_ecb::{
    decrypt, encrypt, hex_to_bytes, key_from_decoded_bytes, padded_size, parse_aes_key,
};
use weixin_agent::error::Error;

fn crypto_message(e: Error) -> String {
    match e {
        Error::Crypto(m) => m,
        _ => panic!("not a crypto error"),
    }
}

#[test]
fn encrypt_decrypt_roundtrip() {
    let key = [0xABu8; 16];
    let plaintext = b"hello world!";
    let ct = encrypt(plaintext, &key).unwrap();
    let pt = decrypt(&ct, &key).unwrap();
    assert_eq!(pt, plaintext);
}

#[test]
fn padded_size_values() {
    assert_eq!(padded_size(0), 16);
    assert_eq!(padded_size(1), 16);
    assert_eq!(padded_size(15), 16);
    assert_eq!(padded_size(16), 32);
    assert_eq!(padded_size(17), 32);
    assert_eq!(padded_size(31), 32);
    assert_eq!(padded_size(32), 48);
}

#[test]
fn parse_aes_key_16_raw_bytes() {
    let raw = [0x01u8; 16];
    let b64 = base64::engine::general_purpose::STANDARD.encode(raw);
    let key = parse_aes_key(&b64).unwrap();
    assert_eq!(key, raw);
}

#[test]
fn parse_aes_key_32_hex_format() {
    let hex_str = "0123456789abcdef0123456789abcdef";
    let b64 = base64::engine::general_purpose::STANDARD.encode(hex_str.as_bytes());
    let key = parse_aes_key(&b64).unwrap();
    let expected = hex_to_bytes(hex_str).unwrap();
    assert_eq!(key, expected.as_slice());
}

#[test]
fn parse_aes_key_invalid() {
    let bad = base64::engine::general_purpose::STANDARD.encode([0u8; 5]);
    assert!(parse_aes_key(&bad).is_err());
}

#[test]
fn encrypt_empty() {
    let key = [0u8; 16];
    let ct = encrypt(b"", &key).unwrap();
    assert_eq!(ct.len(), 16);
    let pt = decrypt(&ct, &key).unwrap();
    assert!(pt.is_empty());
}

#[test]
fn test_hex_to_bytes() {
    assert_eq!(hex_to_bytes("00ff0a").unwrap(), vec![0x00, 0xff, 0x0a]);
    assert_eq!(hex_to_bytes("").unwrap(), Vec::<u8>::new());
    assert!(hex_to_bytes("abc").is_err());
}

#[test]
fn hex_to_bytes_messages_and_sign() {
    assert_eq!(crypto_message(hex_to_bytes("abc").unwrap_err()), "hex string must have even length");
    assert_eq!(
        crypto_message(hex_to_bytes("zz").unwrap_err()),
        "hex parse: invalid digit found in string"
    );
    assert_eq!(hex_to_bytes("+fAB").unwrap(), vec![0x0f, 0xab]);
}

#[test]
fn ciphertext_sizes_follow_padding() {
    let key = [7u8; 16];
    for n in [0usize, 1, 15, 16, 17, 100] {
        let pt = vec![0x5au8; n];
        let ct = encrypt(&pt, &key).unwrap();
        assert_eq!(ct.len(), padded_size(n));
        assert_eq!(decrypt(&ct, &key).unwrap(), pt);
    }
}

#[test]
fn decrypt_bad_padding_is_crypto_error() {
    let key = [1u8; 16];
    let err = decrypt(&[0u8; 5], &key).unwrap_err();
    assert_eq!(crypto_message(err), "AES-ECB decrypt: Unpad Error");
}

#[test]
fn parse_aes_key_error_messages() {
    let bad = base64::engine::general_purpose::STANDARD.encode([0u8; 5]);
    assert_eq!(
        crypto_message(parse_aes_key(&bad).unwrap_err()),
        "aes_key must decode to 16 raw bytes or 32-char hex string, got 5 bytes"
    );
    assert!(crypto_message(parse_aes_key("!!!").unwrap_err()).starts_with("base64 decode aes_key: "));
    let not_hex = [b'g'; 32];
    assert_eq!(
        crypto_message(key_from_decoded_bytes(&not_hex).unwrap_err()),
        "aes_key must decode to 16 raw bytes or 32-char hex string, got 32 bytes"
    );
    let mut not_utf8 = [b'0'; 32];
    not_utf8[0] = 0xff;
    assert_eq!(crypto_message(key_from_decoded_bytes(&not_utf8).unwrap_err()), "aes_key hex not valid UTF-8");
}

#[test]
fn parse_aes_key_hex_uppercase() {
    let hex_str = "00112233445566778899AABBCCDDEEFF";
    let b64 = base64::engine::general_purpose::STANDARD.encode(hex_str.as_bytes());
    let key = parse_aes_key(&b64).unwrap();
    assert_eq!(key, [0x00, 0x11, 0x22, 0x33, 0x44, 0x55, 0x66, 0x77, 0x88, 0x99, 0xaa, 0xbb, 0xcc, 0xdd, 0xee, 0xff]);
}

#[test]
fn decrypt_rejects_partial_blocks() {
    let key = [7u8; 16];
    for n in [1usize, 15, 17, 31] {
        assert!(matches!(decrypt(&vec![0u8; n], &key), Err(Error::Crypto(_))));
    }
}

#[test]
fn parse_aes_key_reports_the_decode_error() {
    let err = base64::engine::general_purpose::STANDARD.decode("!!!!").unwrap_err();
    match parse_aes_key("!!!!") {
        Err(Error::Crypto(m)) => assert_eq!(m, format!("base64 decode aes_key: {err}")),
        _ => panic!("expected a crypto error"),
    }
}

#[test]
fn odd_length_hex_with_multibyte_char() {
    match hex_to_bytes("aé") {
        Err(Error::Crypto(m)) => assert_eq!(m, "hex string must have even length"),
        _ => panic!("expected a crypto error"),
    }
}
