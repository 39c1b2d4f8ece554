use glm_plan_usage::statusline::{format_segment, is_enabled, join_parts};
use glm_plan_usage::text::{decimal_string, signed_decimal_string, str_contains};
use glm_plan_usage::segment::format_countdown;
use glm_plan_usage::{
    Args, CacheConfig, Config, GlmUsageSegment, QuotaUsage, SegmentConfig, SegmentData,
    SegmentStyle, TimeWindow, UsageStats,
};

fn quota(pct: u8, used: i64, limit: i64, reset: Option<i64>, window: &str) -> QuotaUsage {
    QuotaUsage { used, limit, percentage: pct, time_window: window.to_string(), reset_at: reset }
}

#[test]
fn countdown_text() {
    assert_eq!(format_countdown(1000 + 3725, 1000), "1:02");
    assert_eq!(format_countdown(1000 + 60, 1000), "0:01");
    assert_eq!(format_countdown(1000 + 36000, 1000), "10:00");
    assert_eq!(format_countdown(1000, 1000), "0:00");
    assert_eq!(format_countdown(0, 1000), "0:00");
    assert_eq!(format_countdown(i64::MIN, i64::MAX), "0:00");
}

#[test]
fn stats_text_both_parts() {
    let s = UsageStats {
        token_usage: Some(quota(25, 0, 0, Some(7200), "5h")),
        mcp_usage: Some(quota(10, 12, 100, None, "30d")),
    };
    assert_eq!(
        GlmUsageSegment::format_stats(&s, 0),
        "\u{1fa99} 25% (\u{231b}\u{fe0f} 2:00) \u{b7} \u{1f310} 12/100"
    );
}

#[test]
fn stats_text_single_parts() {
    let t = UsageStats { token_usage: Some(quota(5, 0, 0, None, "5h")), mcp_usage: None };
    assert_eq!(GlmUsageSegment::format_stats(&t, 0), "\u{1fa99} 5% (\u{231b}\u{fe0f} --:--)");
    let m = UsageStats { token_usage: None, mcp_usage: Some(quota(5, -3, 40, None, "30d")) };
    assert_eq!(GlmUsageSegment::format_stats(&m, 0), "\u{1f310} -3/40");
    let none = UsageStats { token_usage: None, mcp_usage: None };
    assert_eq!(GlmUsageSegment::format_stats(&none, 0), "");
    assert!(GlmUsageSegment::segment_data(&none, 0).is_none());
}

#[test]
fn color_thresholds() {
    let c = |t: u8, m: u8| {
        let s = UsageStats {
            token_usage: Some(quota(t, 0, 0, None, "5h")),
            mcp_usage: Some(quota(m, 0, 0, None, "30d")),
        };
        let style = GlmUsageSegment::get_color(&s);
        assert!(style.bold);
        assert!(style.color.is_none());
        style.color_256
    };
    assert_eq!(c(0, 79), Some(109));
    assert_eq!(c(80, 0), Some(226));
    assert_eq!(c(94, 3), Some(226));
    assert_eq!(c(10, 95), Some(196));
    assert_eq!(c(100, 100), Some(196));
    let empty = UsageStats { token_usage: None, mcp_usage: None };
    assert_eq!(GlmUsageSegment::get_color(&empty).color_256, Some(109));
}

#[test]
fn segment_data_for_stats() {
    let s = UsageStats { token_usage: None, mcp_usage: Some(quota(96, 1, 2, None, "30d")) };
    let d = GlmUsageSegment::segment_data(&s, 0).expect("data");
    assert_eq!(d.text, "\u{1f310} 1/2");
    assert_eq!(d.style.color_256, Some(196));
}

#[test]
fn ansi_formatting() {
    let d = SegmentData {
        text: "hi".to_string(),
        style: SegmentStyle { color: None, color_256: Some(109), bold: true },
    };
    assert_eq!(format_segment(&d), "\x1b[38;5;109m\x1b[1mhi\x1b[0m");
    let d = SegmentData {
        text: "x".to_string(),
        style: SegmentStyle { color: Some((1, 22, 255)), color_256: None, bold: false },
    };
    assert_eq!(format_segment(&d), "\x1b[38;2;1;22;255mx\x1b[0m");
    let d = SegmentData { text: "y".to_string(), style: SegmentStyle::default() };
    assert_eq!(format_segment(&d), "y\x1b[0m");
}

#[test]
fn enabled_lookup_and_join() {
    let mut off = SegmentConfig::default_glm_usage();
    off.enabled = false;
    let segs = vec![off, SegmentConfig::default_glm_usage()];
    assert!(!is_enabled(&segs, "glm_usage"));
    assert!(!is_enabled(&segs, "other"));
    assert!(is_enabled(&vec![SegmentConfig::default_glm_usage()], "glm_usage"));
    assert_eq!(join_parts(&vec![], " | "), "");
    assert_eq!(join_parts(&vec!["a".to_string()], " | "), "a");
    assert_eq!(join_parts(&vec!["a".to_string(), "b".to_string(), "c".to_string()], " | "), "a | b | c");
}

#[test]
fn default_configuration() {
    let c = Config::default();
    assert_eq!(c.style.mode, "plain");
    assert_eq!(c.style.separator, " | ");
    assert_eq!(c.segments.len(), 1);
    assert_eq!(c.segments[0].id, "glm_usage");
    assert!(c.segments[0].enabled);
    assert_eq!(c.segments[0].styles.get("text_bold"), Some(&true));
    assert_eq!(c.api.timeout_ms, 5000);
    assert_eq!(c.api.retry_attempts, 2);
    assert!(c.cache.enabled);
    assert_eq!(c.cache.ttl_seconds, 300);
}

#[test]
fn no_cache_switch() {
    let a = Args { init: false, verbose: false, no_cache: true };
    let c = a.cache_settings(CacheConfig { enabled: true, ttl_seconds: 9 });
    assert!(!c.enabled);
    assert_eq!(c.ttl_seconds, 9);
    let a = Args { init: false, verbose: false, no_cache: false };
    assert!(a.cache_settings(CacheConfig { enabled: true, ttl_seconds: 9 }).enabled);
}

#[test]
fn decimal_text() {
    assert_eq!(decimal_string(0), "0");
    assert_eq!(decimal_string(109), "109");
    assert_eq!(decimal_string(u64::MAX), u64::MAX.to_string());
    assert_eq!(signed_decimal_string(i64::MIN), i64::MIN.to_string());
    assert_eq!(signed_decimal_string(-7), "-7");
    assert!(str_contains("abc", ""));
    assert!(str_contains("abc", "bc"));
    assert!(!str_contains("abc", "abcd"));
}

#[test]
fn utc_window_text() {
    assert_eq!(TimeWindow::format(0).as_deref(), Some("1970-01-01 00:00:00"));
    let (a, b) = TimeWindow::five_hour_window(18_000).expect("window");
    assert_eq!(a, "1970-01-01 00:00:00");
    assert_eq!(b, "1970-01-01 05:00:00");
    let (a, _) = TimeWindow::thirty_day_window(2_592_000).expect("window");
    assert_eq!(a, "1970-01-01 00:00:00");
    assert!(TimeWindow::five_hour_window(i64::MIN).is_none());
}
