use base64::Engine;
use weixin_agent::cdn::cdn_upload::{
    build_cdn_download_url, build_cdn_upload_url, cdn_client_error, CdnAttempt, UploadAttempts,
    UploadStep,
};
use weixin_agent::cdn::upload::{generate_filekey, plan_upload, resolve_upload_url, upload_result};
use weixin_agent::error::Error;
use weixin_agent::types::{GetUploadUrlResponse, UploadMediaType};

fn cdn_message(e: &Error) -> &str {
    match e {
        Error::CdnUpload(m) => m.as_str(),
        _ => panic!("not a CDN error"),
    }
}

#[test]
fn build_cdn_upload_url_encodes() {
    let url = build_cdn_upload_url("https://cdn.example.com", "param=1&x=2", "key/file");
    assert!(url.starts_with("https://cdn.example.com/upload?"));
    assert!(url.contains("encrypted_query_param=param%3D1%26x%3D2"));
    assert!(url.contains("filekey=key%2Ffile"));
}

#[test]
fn build_cdn_download_url_encodes() {
    let url = build_cdn_download_url("https://cdn.example.com", "enc=val&a=b");
    assert!(url.starts_with("https://cdn.example.com/download?"));
    assert!(url.contains("encrypted_query_param=enc%3Dval%26a%3Db"));
}

#[test]
fn cdn_urls_exact() {
    assert_eq!(
        build_cdn_upload_url("https://c", "a b~-._", "é"),
        "https://c/upload?encrypted_query_param=a%20b~-._&filekey=%C3%A9"
    );
    assert_eq!(build_cdn_download_url("https://c", ""), "https://c/download?encrypted_query_param=");
}

#[test]
fn upload_success_first_try() {
    let mut a = UploadAttempts::new();
    match a.record(CdnAttempt::Response { status: 200, encrypted_param: Some("dl".to_string()) }) {
        UploadStep::Done(p) => assert_eq!(p, "dl"),
        _ => panic!("expected success"),
    }
}

#[test]
fn upload_client_error_stops() {
    let mut a = UploadAttempts::new();
    match a.record(CdnAttempt::Response { status: 403, encrypted_param: None }) {
        UploadStep::ClientError(s) => assert_eq!(s, 403),
        _ => panic!("expected client error"),
    }
    let e = cdn_client_error(403, "denied");
    assert_eq!(cdn_message(&e), "client error 403: denied");
}

#[test]
fn upload_retries_then_gives_up_with_last_error() {
    let mut a = UploadAttempts::new();
    assert!(matches!(
        a.record(CdnAttempt::Response { status: 500, encrypted_param: None }),
        UploadStep::Retry
    ));
    assert!(matches!(
        a.record(CdnAttempt::Response { status: 200, encrypted_param: None }),
        UploadStep::Retry
    ));
    match a.record(CdnAttempt::NetworkError { message: "timed out".to_string() }) {
        UploadStep::GiveUp(e) => assert_eq!(cdn_message(&e), "timed out"),
        _ => panic!("expected give up"),
    }
}

#[test]
fn upload_server_error_message() {
    let mut a = UploadAttempts::new();
    let _ = a.record(CdnAttempt::Response { status: 502, encrypted_param: None });
    let _ = a.record(CdnAttempt::Response { status: 502, encrypted_param: None });
    match a.record(CdnAttempt::Response { status: 503, encrypted_param: None }) {
        UploadStep::GiveUp(e) => assert_eq!(cdn_message(&e), "server error 503"),
        _ => panic!("expected give up"),
    }
}

#[test]
fn filekey_is_32_hex_chars() {
    let k = generate_filekey();
    assert_eq!(k.len(), 32);
    assert!(k.chars().all(|c| c.is_ascii_hexdigit() && !c.is_ascii_uppercase()));
}

#[test]
fn plan_upload_fields() {
    let plan = plan_upload(b"hello", UploadMediaType::File, "user1");
    let r = &plan.request;
    assert_eq!(r.rawsize, 5);
    assert_eq!(r.filesize, 16);
    assert_eq!(r.rawfilemd5, "5d41402abc4b2a76b9719d911017c592");
    assert_eq!(r.to_user_id, "user1");
    assert_eq!(r.no_need_thumb, Some(true));
    assert_eq!(r.filekey.len(), 32);
    let hex: String = plan.aes_key.iter().map(|b| format!("{b:02x}")).collect();
    assert_eq!(r.aeskey, hex);
    assert_eq!(r.base_info.channel_version.as_deref(), Some("2.1.1"));
}

#[test]
fn resolve_upload_url_prefers_full_url() {
    let resp = GetUploadUrlResponse {
        upload_param: Some("p".to_string()),
        thumb_upload_param: None,
        upload_full_url: Some("  https://full/u  ".to_string()),
    };
    assert_eq!(resolve_upload_url(&resp, "https://cdn", "k").unwrap(), "https://full/u");
    let blank = GetUploadUrlResponse {
        upload_param: Some("p=1".to_string()),
        thumb_upload_param: None,
        upload_full_url: Some("   ".to_string()),
    };
    assert_eq!(
        resolve_upload_url(&blank, "https://cdn", "k").unwrap(),
        "https://cdn/upload?encrypted_query_param=p%3D1&filekey=k"
    );
    let none = GetUploadUrlResponse { upload_param: None, thumb_upload_param: None, upload_full_url: None };
    let e = resolve_upload_url(&none, "https://cdn", "k").unwrap_err();
    assert_eq!(cdn_message(&e), "getUploadUrl returned no upload URL");
}

#[test]
fn upload_result_encodes_hex_key_in_base64() {
    let plan = plan_upload(b"abc", UploadMediaType::Image, "u");
    let res = upload_result("dl".to_string(), &plan);
    let expected = base64::engine::general_purpose::STANDARD.encode(plan.request.aeskey.as_bytes());
    assert_eq!(res.aes_key_base64, expected);
    assert_eq!(res.aes_key_hex, plan.request.aeskey);
    assert_eq!(res.file_size, 3);
    assert_eq!(res.file_size_ciphertext, 16);
    assert_eq!(res.encrypt_query_param, "dl");
    assert_eq!(res.filekey, plan.request.filekey);
}

#[test]
fn uploaded_key_parses_back() {
    for _ in 0..8 {
        let plan = plan_upload(b"some file bytes", UploadMediaType::File, "u");
        let res = upload_result("p".to_string(), &plan);
        let key = weixin_agent::cdn::aes_ecb::parse_aes_key(&res.aes_key_base64);
        assert!(matches!(key, Ok(k) if k == plan.aes_key));
    }
}
