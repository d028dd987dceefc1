use weixin_agent::api::session_guard::SessionGuard;
use weixin_agent::error::Error;
use weixin_agent::types::SESSION_PAUSE_DURATION_MS;

#[test]
fn initial_state_not_paused() {
    let guard = SessionGuard::new();
    assert!(!guard.is_paused());
    assert_eq!(guard.remaining_ms(), 0);
    assert!(guard.assert_active().is_ok());
}

#[test]
fn pause_and_check() {
    let mut guard = SessionGuard::new();
    guard.pause();
    assert!(guard.is_paused());
    assert!(guard.remaining_ms() > 0);
}

#[test]
fn assert_active_when_paused() {
    let mut guard = SessionGuard::new();
    guard.pause();
    assert!(guard.assert_active().is_err());
}

#[test]
fn pause_window_at_fixed_times() {
    let mut guard = SessionGuard::new();
    guard.pause_at(1_000);
    assert!(guard.is_paused_at(1_000));
    assert_eq!(guard.remaining_ms_at(1_000), SESSION_PAUSE_DURATION_MS);
    assert_eq!(guard.remaining_ms_at(1_000 + SESSION_PAUSE_DURATION_MS - 1), 1);
    assert!(!guard.is_paused_at(1_000 + SESSION_PAUSE_DURATION_MS));
    assert_eq!(guard.remaining_ms_at(1_000 + SESSION_PAUSE_DURATION_MS), 0);
    assert!(matches!(guard.assert_active_at(2_000), Err(Error::SessionExpired)));
    assert!(guard.assert_active_at(1_000 + SESSION_PAUSE_DURATION_MS).is_ok());
}

#[test]
fn pause_near_clock_limit_saturates() {
    let mut guard = SessionGuard::new();
    guard.pause_at(u64::MAX - 5);
    assert!(guard.is_paused_at(u64::MAX - 1));
    assert_eq!(guard.remaining_ms_at(u64::MAX - 1), 1);
}

#[test]
fn default_guard_is_active() {
    let guard = SessionGuard::default();
    assert!(!guard.is_paused_at(0));
    assert_eq!(guard.remaining_ms_at(12345), 0);
}
