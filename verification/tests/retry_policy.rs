use waybar_dbus_monitor::error::AppError;
use waybar_dbus_monitor::retry::RetryConfig;
use waybar_dbus_monitor::retry::RetryStep;
use waybar_dbus_monitor::retry::retry_step;

#[test]
fn default_policy() {
    let c = RetryConfig::default();
    assert_eq!(c.max_attempts, 5);
    assert_eq!(c.initial_delay_ms, 500);
    assert_eq!(c.max_delay_ms, 5000);
    assert_eq!(c.backoff_num, 3);
    assert_eq!(c.backoff_den, 2);
}

#[test]
fn no_delay_before_the_first_attempt() {
    let c = RetryConfig::default();
    assert_eq!(c.delay_for_attempt(0), 0);
}

#[test]
fn delays_grow_by_the_backoff_factor() {
    let c = RetryConfig::default();
    assert_eq!(c.delay_for_attempt(1), 750);
    assert_eq!(c.delay_for_attempt(2), 1125);
    assert_eq!(c.delay_for_attempt(3), 1687);
}

#[test]
fn delays_are_monotone_and_capped() {
    let c = RetryConfig::default();
    let mut prev: u64 = 0;
    for k in 0..40 {
        let d = c.delay_for_attempt(k);
        assert!(d >= prev);
        assert!(d <= c.max_delay_ms);
        prev = d;
    }
    assert_eq!(c.delay_for_attempt(12), 5000);
}

#[test]
fn permanent_error_aborts_at_once() {
    let c = RetryConfig::default();
    let e = AppError::not_found("gone".to_string());
    assert_eq!(retry_step(&c, 0, &e), RetryStep::Abort);
}

#[test]
fn transient_error_retries_with_backoff() {
    let c = RetryConfig::default();
    let e = AppError::connection_failed("down".to_string());
    assert_eq!(retry_step(&c, 0, &e), RetryStep::RetryAfter(750));
    assert_eq!(retry_step(&c, 1, &e), RetryStep::RetryAfter(1125));
}

#[test]
fn transient_error_aborts_when_attempts_run_out() {
    let c = RetryConfig::default();
    let e = AppError::service_unavailable("away".to_string());
    assert_eq!(retry_step(&c, 4, &e), RetryStep::Abort);
}
