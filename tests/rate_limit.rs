use axum_redis_cache::rate_limit::{is_rate_limit_header, DEFAULT_RATE_LIMIT_EXP, MAX_TIMESTAMP};
use axum_redis_cache::{EpochTime, GithubRateLimitError, RateLimitHeaders};
use chrono::{Duration, Utc};

/// The time now, by the machine's clock.
fn clock_now() -> EpochTime {
    let now = Utc::now();
    EpochTime { secs: now.timestamp(), nanos: now.timestamp_subsec_nanos() }
}

fn signal(
    retry_after: Option<i64>,
    ratelimit_remaining: Option<i64>,
    ratelimit_reset: Option<i64>,
) -> GithubRateLimitError {
    GithubRateLimitError { retry_after, ratelimit_remaining, ratelimit_reset }
}

fn headers(retry_after: Option<&str>, remaining: Option<&str>, reset: Option<&str>) -> RateLimitHeaders {
    RateLimitHeaders {
        retry_after: retry_after.map(String::from),
        ratelimit_remaining: remaining.map(String::from),
        ratelimit_reset: reset.map(String::from),
    }
}

#[test]
fn errors_test_get_expiration_time_when_retry_after_is_present() {
    let rate_limit_error = signal(Some(10), None, None);
    assert_eq!(rate_limit_error.get_expiration_time(clock_now()), 10);
}

#[test]
fn errors_test_get_expiration_time_when_ratelimit_remaining_is_greater_than_zero() {
    let rate_limit_error = signal(None, Some(10), None);
    assert_eq!(rate_limit_error.get_expiration_time(clock_now()), 0);
}

#[test]
fn errors_test_get_expiration_time_when_ratelimit_reset_is_zero() {
    let rate_limit_error = signal(None, None, Some(0));
    assert_eq!(rate_limit_error.get_expiration_time(clock_now()), 0);
}

#[test]
fn errors_test_get_expiration_time_when_ratelimit_remaining_is_zero_and_ratelimit_reset_is_greater_than_zero() {
    let tomorrow = Utc::now() + Duration::days(1);
    let rate_limit_error = signal(None, Some(0), Some(tomorrow.timestamp()));
    assert_eq!(rate_limit_error.get_expiration_time(clock_now()), 86399);
}

#[test]
fn middlewares_test_get_expiration_time_when_retry_after_is_present() {
    let rate_limit_error = signal(Some(10), None, None);
    assert_eq!(rate_limit_error.get_expiration_time(clock_now()), 10);
}

#[test]
fn middlewares_test_get_expiration_time_when_ratelimit_remaining_is_greater_than_zero() {
    let rate_limit_error = signal(None, Some(10), None);
    assert_eq!(rate_limit_error.get_expiration_time(clock_now()), 0);
}

#[test]
fn middlewares_test_get_expiration_time_when_ratelimit_reset_is_zero() {
    let rate_limit_error = signal(None, None, Some(0));
    assert_eq!(rate_limit_error.get_expiration_time(clock_now()), 0);
}

#[test]
fn middlewares_test_get_expiration_time_when_ratelimit_remaining_is_zero_and_ratelimit_reset_is_greater_than_zero() {
    let tomorrow = Utc::now() + Duration::days(1);
    let rate_limit_error = signal(None, Some(0), Some(tomorrow.timestamp()));
    assert_eq!(rate_limit_error.get_expiration_time(clock_now()), 86399);
}

#[test]
fn cooldown_one_day_ahead_at_fixed_time() {
    let now = EpochTime { secs: 1_700_000_000, nanos: 250_000_000 };
    let rate_limit_error = signal(None, Some(0), Some(1_700_000_000 + 86_400));
    assert_eq!(rate_limit_error.get_expiration_time(now), 86399);
    assert!(rate_limit_error.is_rate_limit_exceeded(now));
}

#[test]
fn cooldown_at_whole_second_is_exact() {
    let now = EpochTime { secs: 1_000, nanos: 0 };
    assert_eq!(signal(None, Some(0), Some(1_060)).get_expiration_time(now), 60);
}

#[test]
fn cooldown_after_reset_is_negative_and_not_limited() {
    let now = EpochTime { secs: 1_000, nanos: 500_000_000 };
    let rate_limit_error = signal(None, Some(0), Some(995));
    assert_eq!(rate_limit_error.get_expiration_time(now), -5);
    assert!(!rate_limit_error.is_rate_limit_exceeded(now));
}

#[test]
fn cooldown_just_before_reset_is_zero() {
    let now = EpochTime { secs: 1_000, nanos: 700_000_000 };
    assert_eq!(signal(None, Some(0), Some(1_001)).get_expiration_time(now), 0);
}

#[test]
fn cooldown_ignores_reset_when_remaining_is_absent() {
    let now = EpochTime { secs: 1_000, nanos: 0 };
    assert_eq!(signal(None, None, Some(5_000)).get_expiration_time(now), 0);
}

#[test]
fn cooldown_takes_retry_after_verbatim() {
    let now = EpochTime { secs: 1_000, nanos: 0 };
    assert_eq!(signal(Some(60), Some(0), Some(5_000)).get_expiration_time(now), 60);
    assert_eq!(signal(Some(-3), None, None).get_expiration_time(now), -3);
}

#[test]
fn cooldown_of_reset_beyond_dates_is_default() {
    let now = EpochTime { secs: 1_000, nanos: 0 };
    let rate_limit_error = signal(None, Some(0), Some(MAX_TIMESTAMP + 1));
    assert_eq!(rate_limit_error.get_expiration_time(now), DEFAULT_RATE_LIMIT_EXP);
    let at_limit = signal(None, Some(0), Some(MAX_TIMESTAMP));
    assert_eq!(at_limit.get_expiration_time(now), MAX_TIMESTAMP - 1_000);
}

#[test]
fn cooldown_with_no_signal_is_zero() {
    assert_eq!(signal(None, None, None).get_expiration_time(clock_now()), 0);
    assert!(!signal(None, None, None).is_rate_limit_exceeded(clock_now()));
    assert!(signal(Some(60), None, None).is_rate_limit_exceeded(clock_now()));
}

#[test]
fn signal_read_from_headers() {
    let read = GithubRateLimitError::from_response_headers(&headers(Some("60"), Some("0"), Some("1700000000")));
    assert_eq!(read, signal(Some(60), Some(0), Some(1_700_000_000)));
}

#[test]
fn signal_from_missing_or_malformed_headers_is_absent() {
    let read = GithubRateLimitError::from_response_headers(&headers(None, Some("ten"), Some("")));
    assert_eq!(read, signal(None, None, None));
    let read = GithubRateLimitError::from_response_headers(&headers(Some(" 5"), Some("+7"), Some("-12")));
    assert_eq!(read, signal(None, Some(7), Some(-12)));
    let read = GithubRateLimitError::from_response_headers(&headers(Some("99999999999999999999"), None, None));
    assert_eq!(read, signal(None, None, None));
}

#[test]
fn rate_limit_headers_are_recognised() {
    assert!(is_rate_limit_header("retry-after"));
    assert!(is_rate_limit_header("x-ratelimit-remaining"));
    assert!(is_rate_limit_header("x-ratelimit-reset"));
    assert!(!is_rate_limit_header("content-type"));
    assert!(!is_rate_limit_header("x-ratelimit-limit"));
}
