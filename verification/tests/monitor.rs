use weixin_agent::api::session_guard::SessionGuard;
use weixin_agent::monitor::poll_loop::{paused_sleep, MonitorState, ResponseAction};
use weixin_agent::types::{
    GetUpdatesResponse, BACKOFF_DELAY_MS, RETRY_DELAY_MS, SESSION_PAUSE_DURATION_MS,
};

fn response() -> GetUpdatesResponse {
    GetUpdatesResponse {
        ret: None,
        errcode: None,
        errmsg: None,
        msgs: None,
        sync_buf: None,
        get_updates_buf: None,
        longpolling_timeout_ms: None,
    }
}

#[test]
fn start_state_uses_saved_buffer_and_timeout() {
    let s = MonitorState::new(Some("saved".to_string()), 35_000);
    assert_eq!(s.timeout_ms(), 35_000);
    let req = s.poll_request();
    assert_eq!(req.get_updates_buf, "saved");
    assert_eq!(req.base_info.channel_version.as_deref(), Some("2.1.1"));
    let s = MonitorState::new(None, 1);
    assert_eq!(s.poll_request().get_updates_buf, "");
}

#[test]
fn every_third_failure_backs_off() {
    let mut s = MonitorState::new(None, 35_000);
    let sleeps: Vec<u64> = (0..7).map(|_| s.on_poll_failure()).collect();
    assert_eq!(
        sleeps,
        vec![
            RETRY_DELAY_MS,
            RETRY_DELAY_MS,
            BACKOFF_DELAY_MS,
            RETRY_DELAY_MS,
            RETRY_DELAY_MS,
            BACKOFF_DELAY_MS,
            RETRY_DELAY_MS
        ]
    );
}

#[test]
fn api_errors_count_as_failures_and_success_resets() {
    let mut s = MonitorState::new(None, 35_000);
    let mut g = SessionGuard::new();
    let mut err = response();
    err.ret = Some(-1);
    for expected in [RETRY_DELAY_MS, RETRY_DELAY_MS] {
        match s.on_response(&err, &mut g, 1_000) {
            ResponseAction::Retry { sleep_ms } => assert_eq!(sleep_ms, expected),
            _ => panic!("expected retry"),
        }
    }
    assert!(matches!(s.on_response(&response(), &mut g, 1_000), ResponseAction::Deliver { .. }));
    // The count starts again after the success.
    assert_eq!(s.on_poll_failure(), RETRY_DELAY_MS);
    assert_eq!(s.on_poll_failure(), RETRY_DELAY_MS);
    assert_eq!(s.on_poll_failure(), BACKOFF_DELAY_MS);
    assert!(!g.is_paused_at(1_000));
}

#[test]
fn session_expired_pauses_for_an_hour() {
    let mut s = MonitorState::new(Some("b".to_string()), 35_000);
    let mut g = SessionGuard::new();
    let mut r = response();
    r.errcode = Some(-14);
    r.ret = Some(-1);
    match s.on_response(&r, &mut g, 10_000) {
        ResponseAction::PauseSession { sleep_ms } => assert_eq!(sleep_ms, SESSION_PAUSE_DURATION_MS),
        _ => panic!("expected pause"),
    }
    assert!(g.is_paused_at(10_001));
    assert_eq!(paused_sleep(&g, 20_000), Some(SESSION_PAUSE_DURATION_MS - 10_000));
    assert_eq!(paused_sleep(&g, 10_000 + SESSION_PAUSE_DURATION_MS), None);
    assert_eq!(s.poll_request().get_updates_buf, "b");
}

#[test]
fn expired_code_in_ret_alone_also_pauses() {
    let mut s = MonitorState::new(None, 35_000);
    let mut g = SessionGuard::new();
    let mut r = response();
    r.ret = Some(-14);
    assert!(matches!(s.on_response(&r, &mut g, 5), ResponseAction::PauseSession { .. }));
}

#[test]
fn success_takes_new_buffer_and_ignores_empty_one() {
    let mut s = MonitorState::new(Some("old".to_string()), 35_000);
    let mut g = SessionGuard::new();
    let mut r = response();
    r.get_updates_buf = Some(String::new());
    r.sync_buf = Some("legacy".to_string());
    match s.on_response(&r, &mut g, 0) {
        ResponseAction::Deliver { new_sync_buf } => assert_eq!(new_sync_buf, None),
        _ => panic!("expected delivery"),
    }
    assert_eq!(s.poll_request().get_updates_buf, "old");

    let mut r = response();
    r.sync_buf = Some("legacy".to_string());
    match s.on_response(&r, &mut g, 0) {
        ResponseAction::Deliver { new_sync_buf } => assert_eq!(new_sync_buf.as_deref(), Some("legacy")),
        _ => panic!("expected delivery"),
    }
    assert_eq!(s.poll_request().get_updates_buf, "legacy");

    let mut r = response();
    r.get_updates_buf = Some("fresh".to_string());
    r.sync_buf = Some("legacy".to_string());
    s.on_response(&r, &mut g, 0);
    assert_eq!(s.poll_request().get_updates_buf, "fresh");
}

#[test]
fn server_timeout_adopted_only_when_positive() {
    let mut s = MonitorState::new(None, 35_000);
    let mut g = SessionGuard::new();
    let mut r = response();
    r.longpolling_timeout_ms = Some(0);
    s.on_response(&r, &mut g, 0);
    assert_eq!(s.timeout_ms(), 35_000);
    r.longpolling_timeout_ms = Some(50_000);
    r.errcode = Some(7);
    s.on_response(&r, &mut g, 0);
    assert_eq!(s.timeout_ms(), 50_000);
}
