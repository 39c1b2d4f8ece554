//! The usage cache: the last fetched statistics and the instant they were
//! captured.  Freshness is decided against a caller-supplied TTL.
use vstd::prelude::*;
use crate::types::{opt_stats_view, UsageStats, UsageStatsView};

verus! {

/// A snapshot of the statistics, stamped with the milliseconds of a
/// monotonic clock at capture.
#[derive(Debug)]
pub struct CacheEntry {
    pub stats: UsageStats,
    pub timestamp: u64,
}

pub struct CacheEntryView {
    pub stats: UsageStatsView,
    pub timestamp: u64,
}

impl View for CacheEntry {
    type V = CacheEntryView;

    open spec fn view(&self) -> CacheEntryView {
        CacheEntryView { stats: self.stats@, timestamp: self.timestamp }
    }
}

/// An entry captured at `timestamp` ms is fresh at `now` ms under a TTL of
/// `ttl_seconds`: its age is strictly below the TTL.
pub open spec fn is_fresh(timestamp: u64, now: u64, ttl_seconds: u64) -> bool {
    (now as int) - (timestamp as int) < (ttl_seconds as int) * 1000
}

/// What a fresh read yields on the cache state `entry`.
pub open spec fn fresh_read(entry: Option<CacheEntryView>, now: u64, ttl_seconds: u64) -> Option<UsageStatsView> {
    match entry {
        Some(e) => if is_fresh(e.timestamp, now, ttl_seconds) {
            Some(e.stats)
        } else {
            None
        },
        None => None,
    }
}

/// What a stale read yields on the cache state `entry`.
pub open spec fn stale_read(entry: Option<CacheEntryView>) -> Option<UsageStatsView> {
    match entry {
        Some(e) => Some(e.stats),
        None => None,
    }
}

/// Holder of the current entry, if any was ever written.
#[derive(Debug)]
pub struct UsageCache {
    entry: Option<CacheEntry>,
}

impl View for UsageCache {
    type V = Option<CacheEntryView>;

    closed spec fn view(&self) -> Option<CacheEntryView> {
        match self.entry {
            Some(e) => Some(e@),
            None => None,
        }
    }
}

/// Freshness test, free of overflow.
pub fn entry_is_fresh(timestamp: u64, now: u64, ttl_seconds: u64) -> (r: bool)
    ensures
        r == is_fresh(timestamp, now, ttl_seconds),
{
    if now < timestamp {
        true
    } else {
        let age: u64 = now - timestamp;
        let secs: u64 = age / 1000;
        assert((age as int) < (ttl_seconds as int) * 1000 <==> (secs as int) < ttl_seconds as int)
            by (nonlinear_arith)
            requires
                secs as int == (age as int) / 1000,
        ;
        secs < ttl_seconds
    }
}

impl UsageCache {
    /// An empty cache.
    pub fn new() -> (r: UsageCache)
        ensures
            r@ is None,
    {
        UsageCache { entry: None }
    }

    /// The stored statistics iff an entry exists and is younger than the TTL.
    pub fn read_if_fresh(&self, now: u64, ttl_seconds: u64) -> (r: Option<UsageStats>)
        ensures
            opt_stats_view(r) == fresh_read(self@, now, ttl_seconds),
    {
        match &self.entry {
            Some(e) => {
                if entry_is_fresh(e.timestamp, now, ttl_seconds) {
                    Some(e.stats.clone())
                } else {
                    None
                }
            },
            None => None,
        }
    }

    /// Replace the stored entry by `stats` stamped at `now`.
    pub fn write(&mut self, stats: UsageStats, now: u64)
        ensures
            final(self)@ == Some(CacheEntryView { stats: stats@, timestamp: now }),
    {
        self.entry = Some(CacheEntry { stats, timestamp: now });
    }

    /// The stored statistics whatever their age.
    pub fn read_stale(&self) -> (r: Option<UsageStats>)
        ensures
            opt_stats_view(r) == stale_read(self@),
    {
        match &self.entry {
            Some(e) => Some(e.stats.clone()),
            None => None,
        }
    }
}

/// Reading right after a write, under any positive TTL, yields what was
/// written.
pub proof fn lemma_write_then_read(stats: UsageStatsView, now: u64, ttl_seconds: u64)
    requires
        ttl_seconds > 0,
    ensures
        fresh_read(Some(CacheEntryView { stats, timestamp: now }), now, ttl_seconds) == Some(stats),
{
}

/// An entry whose age equals the TTL exactly is no longer fresh.
pub proof fn lemma_expires_at_ttl(entry: CacheEntryView, ttl_seconds: u64)
    requires
        entry.timestamp as int + ttl_seconds as int * 1000 <= u64::MAX,
    ensures
        fresh_read(
            Some(entry),
            (entry.timestamp as int + ttl_seconds as int * 1000) as u64,
            ttl_seconds,
        ) is None,
{
}

} // verus!
