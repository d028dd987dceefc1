use weixin_agent::api::config_cache::{
    cached_ticket, entry_after_fetch, should_fetch, CacheEntry, INITIAL_RETRY_MS, MAX_RETRY_MS,
};
use weixin_agent::types::GetConfigResponse;

fn ok(ticket: Option<&str>) -> GetConfigResponse {
    GetConfigResponse { ret: Some(0), errmsg: None, typing_ticket: ticket.map(String::from) }
}

#[test]
fn fetch_due_without_entry_or_after_refresh_time() {
    assert!(should_fetch(None, 0));
    let e = CacheEntry { typing_ticket: "t".into(), next_fetch_at: 100, retry_delay_ms: INITIAL_RETRY_MS };
    assert!(!should_fetch(Some(&e), 99));
    assert!(should_fetch(Some(&e), 100));
    assert!(should_fetch(Some(&e), 101));
}

#[test]
fn success_stores_ticket_with_jitter() {
    let e = entry_after_fetch(None, 1_000, Some(&ok(Some("tk"))), 500);
    assert_eq!(e.typing_ticket, "tk");
    assert_eq!(e.next_fetch_at, 1_500);
    assert_eq!(e.retry_delay_ms, INITIAL_RETRY_MS);
    let e = entry_after_fetch(None, 1_000, Some(&ok(None)), 0);
    assert_eq!(e.typing_ticket, "");
    assert_eq!(cached_ticket(Some(&e)).as_deref(), Some(""));
}

#[test]
fn nonzero_or_missing_ret_is_a_failure() {
    let bad = GetConfigResponse { ret: Some(1), errmsg: None, typing_ticket: Some("x".into()) };
    let e = entry_after_fetch(None, 0, Some(&bad), 7);
    assert_eq!(e.typing_ticket, "");
    assert_eq!(e.retry_delay_ms, 4_000);
    let none = GetConfigResponse { ret: None, errmsg: None, typing_ticket: Some("x".into()) };
    let e = entry_after_fetch(None, 0, Some(&none), 7);
    assert_eq!(e.retry_delay_ms, 4_000);
}

#[test]
fn failures_double_the_delay_up_to_the_cap_and_keep_the_ticket() {
    let mut prev = entry_after_fetch(None, 0, Some(&ok(Some("keep"))), 10);
    let mut delays = Vec::new();
    for _ in 0..12 {
        let next = entry_after_fetch(Some(&prev), 1_000, None, 0);
        assert_eq!(next.typing_ticket, "keep");
        assert_eq!(next.next_fetch_at, 1_000 + next.retry_delay_ms);
        delays.push(next.retry_delay_ms);
        prev = next;
    }
    assert_eq!(&delays[..4], &[4_000, 8_000, 16_000, 32_000]);
    assert!(delays.iter().all(|d| (INITIAL_RETRY_MS..=MAX_RETRY_MS).contains(d)));
    assert_eq!(*delays.last().unwrap(), MAX_RETRY_MS);
}

#[test]
fn no_entry_answers_nothing() {
    assert_eq!(cached_ticket(None), None);
}
