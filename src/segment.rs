//! The usage segment: orchestration of cache and fetch, and the text and
//! colour of what it shows.
use vstd::prelude::*;
use crate::cache::{fresh_read, stale_read, CacheEntryView, UsageCache};
use crate::config::CacheConfig;
use crate::text::{
    concat_str, decimal, decimal_2, decimal_string, decimal_string_2, signed_decimal,
    signed_decimal_string,
};
use crate::types::{opt_stats_view, FetchError, QuotaUsageView, UsageStats, UsageStatsView};

verus! {

/// Style of a rendered segment.
#[derive(Debug, Clone, Copy)]
pub struct SegmentStyle {
    pub color: Option<(u8, u8, u8)>,
    pub color_256: Option<u8>,
    pub bold: bool,
}

impl Default for SegmentStyle {
    fn default() -> (r: SegmentStyle)
        ensures
            r == (SegmentStyle { color: None, color_256: None, bold: false }),
    {
        SegmentStyle { color: None, color_256: None, bold: false }
    }
}

/// Text and style of a rendered segment.
#[derive(Debug, Clone)]
pub struct SegmentData {
    pub text: String,
    pub style: SegmentStyle,
}

/// The time left until `reset_at` (seconds), saturated to the `i64` range.
pub open spec fn remaining_secs(reset_at: i64, now: i64) -> int {
    let d = reset_at as int - now as int;
    if d > i64::MAX {
        i64::MAX as int
    } else {
        d
    }
}

/// `H:MM` until the reset, or `0:00` once it has passed.
pub open spec fn countdown_text(reset_at: i64, now: i64) -> Seq<char> {
    let rem = remaining_secs(reset_at, now);
    if rem <= 0 {
        "0:00"@
    } else {
        decimal((rem / 3600) as nat) + ":"@ + decimal_2(((rem % 3600) / 60) as nat)
    }
}

/// Countdown from `now` to `reset_at`, both in seconds since the epoch.
pub fn format_countdown(reset_at: i64, now: i64) -> (r: String)
    ensures
        r@ == countdown_text(reset_at, now),
{
    let d: i128 = reset_at as i128 - now as i128;
    if d <= 0 {
        return String::from_str("0:00");
    }
    let rem: i64 = if d > i64::MAX as i128 {
        i64::MAX
    } else {
        d as i64
    };
    assert(rem as int == remaining_secs(reset_at, now));
    let hours: i64 = rem / 3600;
    let minutes: i64 = (rem % 3600) / 60;
    assert(hours as int == (rem as int) / 3600 && minutes as int == ((rem as int) % 3600) / 60
        && 0 <= minutes < 60 && hours >= 0) by (nonlinear_arith)
        requires
            rem > 0,
            hours == rem / 3600,
            minutes == (rem % 3600) / 60,
    ;
    let h = decimal_string(hours as u64);
    let m = decimal_string_2(minutes as u64);
    let with_colon = concat_str(h.as_str(), ":");
    concat_str(with_colon.as_str(), m.as_str())
}

/// Text of the token window: percentage and countdown to its reset.
pub open spec fn token_text(q: QuotaUsageView, now: i64) -> Seq<char> {
    let countdown = match q.reset_at {
        Some(r) => countdown_text(r, now),
        None => "--:--"@,
    };
    "\u{1fa99} "@ + decimal(q.percentage as nat) + "% (\u{231b}\u{fe0f} "@ + countdown + ")"@
}

/// Text of the tool window: used over limit.
pub open spec fn tool_text(q: QuotaUsageView) -> Seq<char> {
    "\u{1f310} "@ + signed_decimal(q.used as int) + "/"@ + signed_decimal(q.limit as int)
}

/// The segment text: the parts present, joined by a middle dot.
pub open spec fn stats_text(s: UsageStatsView, now: i64) -> Seq<char> {
    match (s.token_usage, s.mcp_usage) {
        (Some(t), Some(m)) => token_text(t, now) + " \u{b7} "@ + tool_text(m),
        (Some(t), None) => token_text(t, now),
        (None, Some(m)) => tool_text(m),
        (None, None) => Seq::empty(),
    }
}

/// Palette colour for the larger of the two percentages.
pub open spec fn color_for(s: UsageStatsView) -> u8 {
    let t: u8 = match s.token_usage {
        Some(q) => q.percentage,
        None => 0,
    };
    let m: u8 = match s.mcp_usage {
        Some(q) => q.percentage,
        None => 0,
    };
    let p = if t >= m {
        t
    } else {
        m
    };
    if p <= 79 {
        109
    } else if p <= 94 {
        226
    } else if p <= 100 {
        196
    } else {
        109
    }
}

fn token_part(q: &crate::types::QuotaUsage, now: i64) -> (r: String)
    ensures
        r@ == token_text(q@, now),
{
    let countdown = match q.reset_at {
        Some(reset) => format_countdown(reset, now),
        None => String::from_str("--:--"),
    };
    let pct = decimal_string(q.percentage as u64);
    let a = concat_str("\u{1fa99} ", pct.as_str());
    let b = concat_str(a.as_str(), "% (\u{231b}\u{fe0f} ");
    let c = concat_str(b.as_str(), countdown.as_str());
    concat_str(c.as_str(), ")")
}

fn tool_part(q: &crate::types::QuotaUsage) -> (r: String)
    ensures
        r@ == tool_text(q@),
{
    let used = signed_decimal_string(q.used);
    let limit = signed_decimal_string(q.limit);
    let a = concat_str("\u{1f310} ", used.as_str());
    let b = concat_str(a.as_str(), "/");
    concat_str(b.as_str(), limit.as_str())
}

/// Usage segment: owner of the usage cache.
#[derive(Debug)]
pub struct GlmUsageSegment {
    cache: UsageCache,
}

impl View for GlmUsageSegment {
    type V = Option<CacheEntryView>;

    closed spec fn view(&self) -> Option<CacheEntryView> {
        self.cache@
    }
}

/// What the provider returns for cache state `entry` at `now`, when the
/// fresh-cache check failed and the fetch ended in `fetched`.
pub open spec fn settled_usage(entry: Option<CacheEntryView>, fetched: Result<UsageStats, FetchError>) -> Option<UsageStatsView> {
    match fetched {
        Ok(s) => Some(s@),
        Err(_) => stale_read(entry),
    }
}

/// The cache state after the fetch ended in `fetched` at `now`.
pub open spec fn settled_cache(entry: Option<CacheEntryView>, config: CacheConfig, now: u64, fetched: Result<UsageStats, FetchError>) -> Option<CacheEntryView> {
    match fetched {
        Ok(s) => if config.enabled {
            Some(CacheEntryView { stats: s@, timestamp: now })
        } else {
            entry
        },
        Err(_) => entry,
    }
}

/// What the first step of the provider yields: the cached statistics when
/// caching is on and they are fresh.
pub open spec fn cached_usage(entry: Option<CacheEntryView>, config: CacheConfig, now: u64) -> Option<UsageStatsView> {
    if config.enabled {
        fresh_read(entry, now, config.ttl_seconds)
    } else {
        None
    }
}

/// The whole provider: fresh cache if any, else the fetched statistics, else
/// the stale entry, else nothing.
pub open spec fn provided_usage(entry: Option<CacheEntryView>, config: CacheConfig, now: u64, fetched: Result<UsageStats, FetchError>) -> Option<UsageStatsView> {
    match cached_usage(entry, config, now) {
        Some(s) => Some(s),
        None => settled_usage(entry, fetched),
    }
}

impl GlmUsageSegment {
    /// A segment with an empty cache.
    pub fn new() -> (r: GlmUsageSegment)
        ensures
            r@ is None,
    {
        GlmUsageSegment { cache: UsageCache::new() }
    }

    /// First step: the cached statistics when caching is enabled and the
    /// entry is younger than the TTL.  `None` means a fetch is needed.
    pub fn get_usage_stats(&self, config: &CacheConfig, now: u64) -> (r: Option<UsageStats>)
        ensures
            opt_stats_view(r) == cached_usage(self@, *config, now),
    {
        if config.enabled {
            self.cache.read_if_fresh(now, config.ttl_seconds)
        } else {
            None
        }
    }

    /// Second step, once a client was built and fetched with retries (or
    /// could not be built): on success store the result when caching is on
    /// and return it; on failure return the stale entry, if any.
    pub fn complete_usage_stats(&mut self, config: &CacheConfig, now: u64, fetched: Result<UsageStats, FetchError>) -> (r: Option<UsageStats>)
        ensures
            opt_stats_view(r) == settled_usage(old(self)@, fetched),
            final(self)@ == settled_cache(old(self)@, *config, now, fetched),
    {
        match fetched {
            Ok(stats) => {
                if config.enabled {
                    let copy = stats.clone();
                    self.cache.write(copy, now);
                }
                Some(stats)
            },
            Err(_) => self.cache.read_stale(),
        }
    }

    /// The segment text for `stats` at `now` (seconds since the epoch).
    pub fn format_stats(stats: &UsageStats, now: i64) -> (r: String)
        ensures
            r@ == stats_text(stats@, now),
    {
        match (&stats.token_usage, &stats.mcp_usage) {
            (Some(t), Some(m)) => {
                let a = token_part(t, now);
                let b = concat_str(a.as_str(), " \u{b7} ");
                let c = tool_part(m);
                concat_str(b.as_str(), c.as_str())
            },
            (Some(t), None) => token_part(t, now),
            (None, Some(m)) => tool_part(m),
            (None, None) => String::new(),
        }
    }

    /// Bold, in green, yellow or red after the larger percentage.
    pub fn get_color(stats: &UsageStats) -> (r: SegmentStyle)
        ensures
            r == (SegmentStyle { color: None, color_256: Some(color_for(stats@)), bold: true }),
    {
        let t: u8 = match &stats.token_usage {
            Some(q) => q.percentage,
            None => 0,
        };
        let m: u8 = match &stats.mcp_usage {
            Some(q) => q.percentage,
            None => 0,
        };
        let p = if t >= m {
            t
        } else {
            m
        };
        let color_256: u8 = if p <= 79 {
            109
        } else if p <= 94 {
            226
        } else if p <= 100 {
            196
        } else {
            109
        };
        SegmentStyle { color: None, color_256: Some(color_256), bold: true }
    }

    /// The rendered segment, or `None` when there is nothing to show.
    pub fn segment_data(stats: &UsageStats, now: i64) -> (r: Option<SegmentData>)
        ensures
            stats_text(stats@, now).len() == 0 <==> r is None,
            r matches Some(d) ==> d.text@ == stats_text(stats@, now) && d.style == (SegmentStyle {
                color: None,
                color_256: Some(color_for(stats@)),
                bold: true,
            }),
    {
        let text = Self::format_stats(stats, now);
        if text.as_str().unicode_len() == 0 {
            return None;
        }
        Some(SegmentData { text, style: Self::get_color(stats) })
    }
}

/// With caching on and an entry present, a failed fetch of any kind yields
/// the stored statistics, however old they are.
pub proof fn lemma_stale_fallback(entry: CacheEntryView, config: CacheConfig, now: u64, fetched: Result<UsageStats, FetchError>)
    requires
        config.enabled,
        fetched is Err,
    ensures
        provided_usage(Some(entry), config, now, fetched) == Some(entry.stats),
{
}

/// A fresh entry is served as it is, whatever a fetch would have produced.
pub proof fn lemma_fresh_served(entry: CacheEntryView, config: CacheConfig, now: u64, fetched: Result<UsageStats, FetchError>)
    requires
        config.enabled,
        crate::cache::is_fresh(entry.timestamp, now, config.ttl_seconds),
    ensures
        cached_usage(Some(entry), config, now) == Some(entry.stats),
        provided_usage(Some(entry), config, now, fetched) == Some(entry.stats),
{
}

} // verus!
