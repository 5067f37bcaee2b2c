use codexmanager::outcome::should_failover_after_fallback_non_success;
use codexmanager::runtime_rules::{
    http_queue_size, http_stream_queue_size, should_bypass_queue, HTTP_QUEUE_MIN,
    HTTP_STREAM_QUEUE_MIN,
};

#[test]
fn fallback_non_success_5xx_does_not_failover_even_with_more_candidates() {
    assert!(!should_failover_after_fallback_non_success(500, true));
    assert!(!should_failover_after_fallback_non_success(503, true));
}

#[test]
fn fallback_non_success_auth_and_rate_limit_can_failover_when_candidates_remain() {
    assert!(should_failover_after_fallback_non_success(401, true));
    assert!(should_failover_after_fallback_non_success(403, true));
    assert!(should_failover_after_fallback_non_success(404, true));
    assert!(should_failover_after_fallback_non_success(429, true));
}

#[test]
fn fallback_non_success_never_failover_without_more_candidates() {
    assert!(!should_failover_after_fallback_non_success(401, false));
    assert!(!should_failover_after_fallback_non_success(429, false));
    assert!(!should_failover_after_fallback_non_success(500, false));
}

#[test]
fn queue_size_has_minimum_guard() {
    assert!(http_queue_size(0) >= HTTP_QUEUE_MIN);
    assert!(http_stream_queue_size(0) >= HTTP_STREAM_QUEUE_MIN);
}

#[test]
fn bypass_queue_covers_health_and_metrics() {
    assert!(should_bypass_queue("/health"));
    assert!(should_bypass_queue("/metrics"));
    assert!(!should_bypass_queue("/rpc"));
}

#[test]
fn queue_sizes_keep_larger_requests() {
    assert_eq!(http_queue_size(1000), 1000);
    assert_eq!(http_stream_queue_size(HTTP_STREAM_QUEUE_MIN + 1), HTTP_STREAM_QUEUE_MIN + 1);
    assert!(!should_failover_after_fallback_non_success(400, true));
    assert!(!should_bypass_queue("/health/"));
}
