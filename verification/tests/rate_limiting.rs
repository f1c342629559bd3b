use catbird::rate_limit::{
    ip_rate_limit, rate_limit_response, session_rate_limit, RateLimitConfig, RateLimitState,
    RateLimiter,
};

#[test]
fn test_rate_limiter_allows_within_limit() {
    let mut limiter = RateLimiter::new();
    let config = RateLimitConfig { max_requests: 5, window_ms: 60 * 1000 };

    for i in 0..5 {
        let result = limiter.check("test", &config, 1_000 + i);
        assert!(result.is_ok(), "Request {} should be allowed", i);
    }
}

#[test]
fn test_rate_limiter_blocks_over_limit() {
    let mut limiter = RateLimiter::new();
    let config = RateLimitConfig { max_requests: 3, window_ms: 60 * 1000 };

    // Use up the limit
    for _ in 0..3 {
        let result = limiter.check("test", &config, 1_000);
        assert!(result.is_ok());
    }

    // Should be blocked
    let result = limiter.check("test", &config, 1_000);
    assert!(result.is_err());
}

#[test]
fn test_rate_limiter_different_keys() {
    let mut limiter = RateLimiter::new();
    let config = RateLimitConfig { max_requests: 2, window_ms: 60 * 1000 };

    // Key A uses its limit
    for _ in 0..2 {
        assert!(limiter.check("key_a", &config, 5).is_ok());
    }
    assert!(limiter.check("key_a", &config, 5).is_err());

    // Key B should still work
    assert!(limiter.check("key_b", &config, 5).is_ok());
}

#[test]
fn remaining_requests_count_down() {
    let mut limiter = RateLimiter::new();
    let config = RateLimitConfig { max_requests: 3, window_ms: 60_000 };
    assert_eq!(limiter.check("k", &config, 10), Ok(2));
    assert_eq!(limiter.check("k", &config, 20), Ok(1));
    assert_eq!(limiter.check("k", &config, 30), Ok(0));
    assert_eq!(limiter.check("k", &config, 40), Err(60));
}

#[test]
fn retry_after_is_what_is_left_of_the_window() {
    let mut limiter = RateLimiter::new();
    let config = RateLimitConfig { max_requests: 1, window_ms: 60_000 };
    assert_eq!(limiter.check("k", &config, 100_000), Ok(0));
    // at once: the whole window
    assert_eq!(limiter.check("k", &config, 100_000), Err(60));
    // 999 ms later: still 60 whole seconds
    assert_eq!(limiter.check("k", &config, 100_999), Err(60));
    // 12.5 s later: 48 s
    assert_eq!(limiter.check("k", &config, 112_500), Err(48));
    // 59.999 s later: never less than one second
    assert_eq!(limiter.check("k", &config, 159_999), Err(1));
}

#[test]
fn request_after_the_window_begins_a_new_one() {
    let mut limiter = RateLimiter::new();
    let config = RateLimitConfig { max_requests: 2, window_ms: 60_000 };
    assert_eq!(limiter.check("k", &config, 1_000), Ok(1));
    assert_eq!(limiter.check("k", &config, 2_000), Ok(0));
    assert_eq!(limiter.check("k", &config, 60_999), Err(1));
    // exactly one window after the first request
    assert_eq!(limiter.check("k", &config, 61_000), Ok(1));
    assert_eq!(limiter.check("k", &config, 61_001), Ok(0));
    assert_eq!(limiter.check("k", &config, 61_002), Err(60));
    assert_eq!(limiter.len(), 1);
    assert_eq!(limiter.window_of_key("k"), Some((2, 61_000)));
}

#[test]
fn refused_requests_are_not_counted() {
    let mut limiter = RateLimiter::new();
    let config = RateLimitConfig { max_requests: 1, window_ms: 10_000 };
    assert!(limiter.check("k", &config, 0).is_ok());
    for t in 1..50 {
        assert!(limiter.check("k", &config, t).is_err());
    }
    assert_eq!(limiter.window_of_key("k"), Some((1, 0)));
}

#[test]
fn a_limit_of_nothing_lets_nothing_through() {
    let mut limiter = RateLimiter::new();
    let config = RateLimitConfig { max_requests: 0, window_ms: 5_000 };
    assert_eq!(limiter.check("k", &config, 0), Err(5));
    assert_eq!(limiter.check("k", &config, 4_000), Err(1));
}

#[test]
fn a_clock_that_went_back_does_not_fail() {
    let mut limiter = RateLimiter::new();
    let config = RateLimitConfig { max_requests: 2, window_ms: 60_000 };
    assert_eq!(limiter.check("k", &config, 10_000), Ok(1));
    assert_eq!(limiter.check("k", &config, 9_000), Ok(0));
    assert_eq!(limiter.check("k", &config, 8_000), Err(60));
}

#[test]
fn cleanup_forgets_old_windows_only() {
    let mut limiter = RateLimiter::new();
    let config = RateLimitConfig { max_requests: 5, window_ms: 60_000 };
    limiter.check("old", &config, 0).unwrap();
    limiter.check("young", &config, 100_000).unwrap();
    limiter.cleanup(120_000, 130_000);
    assert_eq!(limiter.len(), 1);
    assert_eq!(limiter.window_of_key("young"), Some((1, 100_000)));
    assert_eq!(limiter.window_of_key("old"), None);
    // forgotten keys start afresh
    assert_eq!(limiter.check("old", &config, 130_001), Ok(4));
    assert_eq!(limiter.check("young", &config, 130_001), Ok(3));
}

#[test]
fn state_cleanup_uses_twice_the_window() {
    let mut state = RateLimitState::new(
        RateLimitConfig { max_requests: 5, window_ms: 10_000 },
        RateLimitConfig { max_requests: 5, window_ms: 1_000 },
    );
    session_rate_limit(&mut state, Some("s1"), None, 0).unwrap();
    ip_rate_limit(&mut state, Some("1.2.3.4"), 0).unwrap();
    state.cleanup(19_999);
    assert_eq!(state.session_limiter.len(), 1);
    assert_eq!(state.ip_limiter.len(), 0);
    state.cleanup(20_000);
    assert_eq!(state.session_limiter.len(), 0);
    assert_eq!(RateLimitState::start_cleanup_task(), 300_000);
}

#[test]
fn default_limits() {
    let config = RateLimitConfig::default();
    assert_eq!(config.max_requests, 100);
    assert_eq!(config.window_ms, 60_000);
    let state = RateLimitState::default();
    assert_eq!(state.session_config.max_requests, 100);
    assert_eq!(state.session_config.window_ms, 60_000);
    assert_eq!(state.ip_config.max_requests, 10);
    assert_eq!(state.ip_config.window_ms, 60_000);
}

#[test]
fn requests_are_counted_under_session_then_address() {
    let mut state = RateLimitState::new(
        RateLimitConfig { max_requests: 1, window_ms: 60_000 },
        RateLimitConfig { max_requests: 1, window_ms: 60_000 },
    );
    assert_eq!(session_rate_limit(&mut state, Some("abc"), Some("9.9.9.9"), 0).unwrap(), 0);
    assert_eq!(state.session_limiter.window_of_key("session:abc"), Some((1, 0)));
    // the same address without a session is another key
    assert_eq!(session_rate_limit(&mut state, None, Some("9.9.9.9"), 0).unwrap(), 0);
    assert_eq!(state.session_limiter.window_of_key("ip:9.9.9.9"), Some((1, 0)));
    assert_eq!(session_rate_limit(&mut state, None, None, 0).unwrap(), 0);
    assert_eq!(state.session_limiter.window_of_key("unknown"), Some((1, 0)));
    assert_eq!(state.session_limiter.len(), 3);
    let refused = session_rate_limit(&mut state, Some("abc"), None, 30_000).unwrap_err();
    assert_eq!(refused.status, 429);
    assert_eq!(refused.retry_after, 30);
    assert_eq!(refused.retry_after_header, "30");
    assert_eq!(state.ip_limiter.len(), 0);
}

#[test]
fn logins_are_counted_under_the_address() {
    let mut state = RateLimitState::default();
    for left in (0..10).rev() {
        assert_eq!(ip_rate_limit(&mut state, Some("5.6.7.8"), 1_000).unwrap(), left);
    }
    let refused = ip_rate_limit(&mut state, Some("5.6.7.8"), 1_000).unwrap_err();
    assert_eq!(refused.retry_after, 60);
    assert_eq!(state.ip_limiter.window_of_key("auth:5.6.7.8"), Some((10, 1_000)));
    assert_eq!(ip_rate_limit(&mut state, None, 1_000).unwrap(), 9);
    assert_eq!(state.ip_limiter.window_of_key("auth:unknown"), Some((1, 1_000)));
    assert_eq!(state.session_limiter.len(), 0);
}

#[test]
fn rejection_body_and_header() {
    let r = rate_limit_response(17);
    assert_eq!(r.status, 429);
    assert_eq!(r.retry_after, 17);
    assert_eq!(r.retry_after_header, "17");
    assert_eq!(r.error, "rate_limit_exceeded");
    assert_eq!(r.message, "Too many requests. Please slow down.");
}

#[test]
fn a_new_limiter_holds_no_window() {
    let limiter = RateLimiter::new();
    assert_eq!(limiter.len(), 0);
    assert_eq!(limiter.window_of_key("k"), None);
}
