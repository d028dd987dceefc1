use weixin_agent::util::redact::{
    redact_body, redact_body_default, redact_token, redact_token_default, redact_url, truncate,
};

#[test]
fn redact_token_empty() {
    assert_eq!(redact_token("", 6), "(none)");
}

#[test]
fn redact_token_short() {
    assert_eq!(redact_token("abc", 6), "****(len=3)");
}

#[test]
fn redact_token_normal() {
    let r = redact_token("abcdefghij", 6);
    assert!(r.starts_with("abcdef"));
    assert!(r.contains("len=10"));
}

#[test]
fn redact_token_multibyte() {
    let r = redact_token("你好世界测试数据", 6);
    assert!(r.contains("len="));
}

#[test]
fn redact_url_with_query() {
    let r = redact_url("https://example.com/path?secret=123");
    assert!(r.contains("/path"));
    assert!(r.contains("<redacted>"));
    assert!(!r.contains("secret"));
}

#[test]
fn redact_url_without_query() {
    let r = redact_url("https://example.com/path");
    assert_eq!(r, "https://example.com/path");
}

#[test]
fn redact_body_sensitive_fields() {
    let body = r#"{"token":"secret123","name":"bob"}"#;
    let r = redact_body(body, 500);
    assert!(r.contains("<redacted>"));
    assert!(!r.contains("secret123"));
    assert!(r.contains("bob"));
}

#[test]
fn redact_body_truncation() {
    let body = r#"{"data":"x"}"#;
    let r = redact_body(body, 5);
    assert!(r.contains("truncated"));
}

#[test]
fn redact_body_empty() {
    assert_eq!(redact_body("", 100), "(empty)");
}

#[test]
fn redact_body_multibyte() {
    let body = r#"{"token":"密码","name":"你好"}"#;
    let r = redact_body(body, 500);
    assert!(r.contains("<redacted>"));
    assert!(!r.contains("密码"));
}

#[test]
fn truncate_short() {
    assert_eq!(truncate("hi", 10), "hi");
}

#[test]
fn truncate_long() {
    let r = truncate("hello world", 5);
    assert!(r.starts_with("hello"));
    assert!(r.contains("len=11"));
}

#[test]
fn truncate_multibyte() {
    let r = truncate("你好世界", 3);
    assert!(r.contains("len="));
}

// ── Exact values ────────────────────────────────────────────────────

#[test]
fn truncate_exact_output() {
    assert_eq!(truncate("hello world", 5), "hello…(len=11)");
    assert_eq!(truncate("hello", 5), "hello");
}

#[test]
fn truncate_multibyte_cuts_at_char_boundary() {
    // "你" is 3 bytes: a 4-byte budget keeps one character, never a partial one.
    assert_eq!(truncate("你好世界", 4), "你…(len=12)");
    assert_eq!(truncate("你好世界", 2), "…(len=12)");
}

#[test]
fn redact_token_exact_output() {
    assert_eq!(redact_token("abcdefghij", 6), "abcdef…(len=10)");
    assert_eq!(redact_token("abcdef", 6), "****(len=6)");
    assert_eq!(redact_token_default("0123456789"), "012345…(len=10)");
}

#[test]
fn redact_body_every_key_and_occurrence() {
    let body = r#"{"context_token":"c1","bot_token":"b2","token":"t3","authorization":"a4","Authorization":"A5","token":"t6"}"#;
    let r = redact_body(body, 1000);
    assert_eq!(
        r,
        r#"{"context_token":"<redacted>","bot_token":"<redacted>","token":"<redacted>","authorization":"<redacted>","Authorization":"<redacted>","token":"<redacted>"}"#
    );
}

#[test]
fn redact_body_unclosed_value_left_alone() {
    let body = r#"{"token":"abc"#;
    assert_eq!(redact_body(body, 100), body);
}

#[test]
fn redact_body_truncation_exact() {
    assert_eq!(redact_body(r#"{"data":"x"}"#, 5), r#"{"dat…(truncated, totalLen=12)"#);
}

#[test]
fn redact_body_default_keeps_short_bodies() {
    assert_eq!(redact_body_default(r#"{"a":1}"#), r#"{"a":1}"#);
}

#[test]
fn redact_url_keeps_port_and_drops_query() {
    assert_eq!(
        redact_url("http://example.com:8080/a/b?x=1&y=2"),
        "http://example.com:8080/a/b?<redacted>"
    );
}

#[test]
fn redact_url_unparsable_is_truncated() {
    assert_eq!(redact_url("not a url"), "not a url");
}
