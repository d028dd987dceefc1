use weixin_agent::config::{
    WeixinConfig, DEFAULT_API_TIMEOUT_MS, DEFAULT_BASE_URL, DEFAULT_CDN_BASE_URL,
    DEFAULT_LONG_POLL_TIMEOUT_MS,
};
use weixin_agent::error::Error;

#[test]
fn builder_defaults() {
    let cfg = WeixinConfig::builder().token("tok").build().unwrap();
    assert_eq!(cfg.base_url, DEFAULT_BASE_URL);
    assert_eq!(cfg.cdn_base_url, DEFAULT_CDN_BASE_URL);
    assert_eq!(cfg.long_poll_timeout_ms, DEFAULT_LONG_POLL_TIMEOUT_MS);
    assert_eq!(cfg.api_timeout_ms, DEFAULT_API_TIMEOUT_MS);
    assert!(cfg.route_tag.is_none());
}

#[test]
fn missing_token_error() {
    let result = WeixinConfig::builder().build();
    assert!(result.is_err());
}

#[test]
fn custom_values() {
    let cfg = WeixinConfig::builder()
        .token("my_token")
        .base_url("https://custom.example.com/")
        .cdn_base_url("https://cdn.example.com")
        .route_tag(42)
        .long_poll_timeout(10_000)
        .api_timeout(5_000)
        .build()
        .unwrap();
    assert_eq!(cfg.token, "my_token");
    assert_eq!(cfg.base_url, "https://custom.example.com/");
    assert_eq!(cfg.cdn_base_url, "https://cdn.example.com");
    assert_eq!(cfg.route_tag, Some(42));
    assert_eq!(cfg.long_poll_timeout_ms, 10_000);
    assert_eq!(cfg.api_timeout_ms, 5_000);
}

#[test]
fn missing_token_message_and_last_setting_wins() {
    match WeixinConfig::builder().base_url("x").build() {
        Err(Error::Config(m)) => assert_eq!(m, "token is required"),
        _ => panic!("expected config error"),
    }
    let cfg = WeixinConfig::builder().token("a").token("b").build().unwrap();
    assert_eq!(cfg.token, "b");
    assert_eq!(DEFAULT_LONG_POLL_TIMEOUT_MS, 35_000);
    assert_eq!(DEFAULT_API_TIMEOUT_MS, 15_000);
}
