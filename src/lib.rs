//! Usage-quota status segment for a coding assistant's status bar.
//!
//! The library holds the logic: platform detection, request shaping,
//! interpretation of the quota response, the retry policy, the usage cache
//! and the orchestration that degrades every failure to stale data or to
//! nothing.  The binary around it performs the network and file I/O.
use vstd::prelude::*;

pub mod text;
pub mod platform;
pub mod types;
pub mod client;
pub mod retry;
pub mod cache;
pub mod config;
pub mod segment;
pub mod statusline;
pub mod time_window;
pub mod cli;

pub use cache::{CacheEntry, UsageCache};
pub use cli::Args;
pub use client::{GlmApiClient, HttpOutcome};
pub use config::{
    AnsiColor, ApiConfig, CacheConfig, Config, ModelInfo, SegmentConfig, StyleConfig,
    WorkspaceInfo,
};
pub use platform::Platform;
pub use retry::{RetryPolicy, RetryStep};
pub use segment::{GlmUsageSegment, SegmentData, SegmentStyle};
pub use time_window::TimeWindow;
pub use types::{
    ApiError, ConfigError, FetchError, ModelUsageData, ModelUsageResponse, QuotaLimitData,
    QuotaLimitItem, QuotaLimitResponse, QuotaUsage, ToolUsageData, ToolUsageResponse, UsageStats,
};

verus! {

} // verus!
