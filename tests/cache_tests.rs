use glm_plan_usage::retry::{MAX_ATTEMPTS, RETRY_DELAY_MS};
use glm_plan_usage::{
    ApiError, CacheConfig, ConfigError, FetchError, GlmUsageSegment, QuotaUsage, RetryPolicy,
    RetryStep, UsageCache, UsageStats,
};

fn stats(pct: u8) -> UsageStats {
    UsageStats {
        token_usage: Some(QuotaUsage {
            used: 1,
            limit: 2,
            percentage: pct,
            time_window: "5h".to_string(),
            reset_at: None,
        }),
        mcp_usage: None,
    }
}

fn pct_of(s: &Option<UsageStats>) -> Option<u8> {
    s.as_ref().and_then(|s| s.token_usage.as_ref()).map(|q| q.percentage)
}

#[test]
fn fresh_read_is_strict() {
    let mut cache = UsageCache::new();
    assert!(cache.read_if_fresh(0, 300).is_none());
    cache.write(stats(10), 1_000);
    assert_eq!(pct_of(&cache.read_if_fresh(300_999, 300)), Some(10));
    assert!(cache.read_if_fresh(301_000, 300).is_none());
    assert!(cache.read_if_fresh(400_000, 300).is_none());
    assert_eq!(pct_of(&cache.read_stale()), Some(10));
}

#[test]
fn write_then_read_round_trip() {
    let mut cache = UsageCache::new();
    cache.write(stats(42), 7);
    let got = cache.read_if_fresh(7, 1).expect("fresh");
    let q = got.token_usage.expect("token");
    assert_eq!(q.percentage, 42);
    assert_eq!(q.used, 1);
    assert_eq!(q.limit, 2);
    assert_eq!(q.time_window, "5h");
}

#[test]
fn stale_read_on_empty_cache() {
    let cache = UsageCache::new();
    assert!(cache.read_stale().is_none());
}

#[test]
fn retry_third_attempt_succeeds() {
    let mut p = RetryPolicy::new();
    let mut pauses = 0;
    let outcomes = vec![
        Err(ApiError::Transport("a".to_string())),
        Err(ApiError::Transport("b".to_string())),
        Ok(stats(5)),
    ];
    let mut result = None;
    for o in outcomes {
        assert!(p.may_attempt());
        match p.record(o) {
            RetryStep::Retry => pauses += 1,
            RetryStep::Done(r) => {
                result = Some(r);
                break;
            }
        }
    }
    assert_eq!(pauses, 2);
    assert_eq!(pct_of(&result.unwrap().ok()), Some(5));
}

#[test]
fn retry_all_fail_returns_last_error() {
    let mut p = RetryPolicy::new();
    let mut pauses = 0;
    let mut result = None;
    for name in ["a", "b", "c"] {
        match p.record(Err(ApiError::Transport(name.to_string()))) {
            RetryStep::Retry => pauses += 1,
            RetryStep::Done(r) => {
                result = Some(r);
                break;
            }
        }
    }
    assert_eq!(pauses, 2);
    assert_eq!(pauses * RETRY_DELAY_MS, 200);
    assert!(!p.may_attempt());
    assert_eq!(p.attempts, MAX_ATTEMPTS);
    assert!(matches!(result, Some(Err(ApiError::Transport(ref m))) if m == "c"));
}

#[test]
fn retry_first_success_stops() {
    let mut p = RetryPolicy::new();
    assert!(matches!(p.record(Ok(stats(1))), RetryStep::Done(Ok(_))));
    assert_eq!(p.attempts, 1);
}

#[test]
fn fresh_cache_served_without_fetch() {
    let cfg = CacheConfig { enabled: true, ttl_seconds: 300 };
    let mut seg = GlmUsageSegment::new();
    let got = seg.complete_usage_stats(&cfg, 0, Ok(stats(33)));
    assert_eq!(pct_of(&got), Some(33));
    // ten seconds later
    assert_eq!(pct_of(&seg.get_usage_stats(&cfg, 10_000)), Some(33));
}

#[test]
fn disabled_cache_skips_fresh_check_and_write() {
    let off = CacheConfig { enabled: false, ttl_seconds: 300 };
    let mut seg = GlmUsageSegment::new();
    assert_eq!(pct_of(&seg.complete_usage_stats(&off, 0, Ok(stats(7)))), Some(7));
    assert!(seg.get_usage_stats(&off, 1).is_none());
    let err = FetchError::Api(ApiError::Transport("x".to_string()));
    assert!(seg.complete_usage_stats(&off, 2, Err(err)).is_none());
}

#[test]
fn stale_entry_used_when_fetch_fails() {
    let cfg = CacheConfig { enabled: true, ttl_seconds: 300 };
    let mut seg = GlmUsageSegment::new();
    seg.complete_usage_stats(&cfg, 0, Ok(stats(60)));
    assert!(seg.get_usage_stats(&cfg, 1_000_000).is_none());
    let err = FetchError::Api(ApiError::ServerRejected("quota exceeded".to_string()));
    assert_eq!(pct_of(&seg.complete_usage_stats(&cfg, 1_000_000, Err(err))), Some(60));
    let err = FetchError::Config(ConfigError::MissingCredential);
    assert_eq!(pct_of(&seg.complete_usage_stats(&cfg, 1_000_000, Err(err))), Some(60));
}

#[test]
fn rejection_without_cache_gives_nothing() {
    let cfg = CacheConfig { enabled: true, ttl_seconds: 300 };
    let mut seg = GlmUsageSegment::new();
    assert!(seg.get_usage_stats(&cfg, 0).is_none());
    let err = FetchError::Api(ApiError::ServerRejected("quota exceeded".to_string()));
    assert!(seg.complete_usage_stats(&cfg, 0, Err(err)).is_none());
}
