use weixin_agent::error::Error;

#[test]
fn messages_of_each_kind() {
    assert_eq!(Error::Http("boom".into()).message(), "HTTP request failed: boom");
    assert_eq!(Error::Json("x".into()).message(), "JSON error: x");
    assert_eq!(Error::Io("disk".into()).message(), "I/O error: disk");
    assert_eq!(
        Error::Api { errcode: -14, errmsg: "expired".into() }.message(),
        "API error: errcode=-14, errmsg=expired"
    );
    assert_eq!(
        Error::Api { errcode: 0, errmsg: String::new() }.message(),
        "API error: errcode=0, errmsg="
    );
    assert_eq!(
        Error::Api { errcode: i32::MIN, errmsg: "m".into() }.message(),
        "API error: errcode=-2147483648, errmsg=m"
    );
    assert_eq!(
        Error::SessionExpired.message(),
        "Session expired for account, paused until cooldown"
    );
    assert_eq!(Error::CdnUpload("c".into()).message(), "CDN upload failed: c");
    assert_eq!(Error::Crypto("k".into()).message(), "Encryption error: k");
    assert_eq!(Error::Config("token is required".into()).message(), "Configuration error: token is required");
    assert_eq!(Error::Timeout("t".into()).message(), "Timeout: t");
}
