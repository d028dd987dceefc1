use weixin_agent::util::random::{
    format_id, format_temp_file_name, generate_id, hex_encode, random_hex, temp_file_name,
};

#[test]
fn generate_id_format() {
    let id = generate_id("test");
    assert!(id.starts_with("test:"));
    let rest = &id["test:".len()..];
    let parts: Vec<&str> = rest.splitn(2, '-').collect();
    assert_eq!(parts.len(), 2);
    assert!(parts[0].parse::<u128>().is_ok());
    assert_eq!(parts[1].len(), 8);
}

#[test]
fn random_hex_length() {
    assert_eq!(random_hex(0).len(), 0);
    assert_eq!(random_hex(1).len(), 2);
    assert_eq!(random_hex(4).len(), 8);
    assert_eq!(random_hex(16).len(), 32);
    assert!(random_hex(4).chars().all(|c| c.is_ascii_hexdigit()));
}

#[test]
fn temp_file_name_format() {
    let name = temp_file_name("upload", ".png");
    assert!(name.starts_with("upload-"));
    assert!(name.ends_with(".png"));
    let mid = &name["upload-".len()..name.len() - ".png".len()];
    let parts: Vec<&str> = mid.splitn(2, '-').collect();
    assert_eq!(parts.len(), 2);
}

#[test]
fn formats_exact() {
    assert_eq!(format_id("p", 1700000000123, "deadbeef"), "p:1700000000123-deadbeef");
    assert_eq!(format_id("p", 0, ""), "p:0-");
    assert_eq!(format_temp_file_name("up", 42, "0a", ".bin"), "up-42-0a.bin");
    assert_eq!(hex_encode(&[0x00, 0x0f, 0xa0, 0xff]), "000fa0ff");
}
