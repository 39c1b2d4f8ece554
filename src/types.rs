//! Usage values, the quota-limit wire shape and the error taxonomy.
use vstd::prelude::*;

verus! {

/// One quota window's usage.  `percentage` lies in `0..=100`.
#[derive(Debug)]
pub struct QuotaUsage {
    pub used: i64,
    pub limit: i64,
    pub percentage: u8,
    pub time_window: String,
    /// Reset instant in seconds since the Unix epoch, when the server gave one.
    pub reset_at: Option<i64>,
}

pub struct QuotaUsageView {
    pub used: i64,
    pub limit: i64,
    pub percentage: u8,
    pub time_window: Seq<char>,
    pub reset_at: Option<i64>,
}

impl QuotaUsageView {
    /// The percentage lies in `0..=100`.
    pub open spec fn wf(self) -> bool {
        self.percentage <= 100
    }
}

impl View for QuotaUsage {
    type V = QuotaUsageView;

    open spec fn view(&self) -> QuotaUsageView {
        QuotaUsageView {
            used: self.used,
            limit: self.limit,
            percentage: self.percentage,
            time_window: self.time_window@,
            reset_at: self.reset_at,
        }
    }
}

impl Clone for QuotaUsage {
    fn clone(&self) -> (r: QuotaUsage)
        ensures
            r@ == self@,
    {
        QuotaUsage {
            used: self.used,
            limit: self.limit,
            percentage: self.percentage,
            time_window: self.time_window.clone(),
            reset_at: self.reset_at,
        }
    }
}

pub open spec fn opt_quota_view(q: Option<QuotaUsage>) -> Option<QuotaUsageView> {
    match q {
        Some(u) => Some(u@),
        None => None,
    }
}

/// Usage of the short (token) window and of the long (tool) window.
#[derive(Debug)]
pub struct UsageStats {
    pub token_usage: Option<QuotaUsage>,
    pub mcp_usage: Option<QuotaUsage>,
}

pub struct UsageStatsView {
    pub token_usage: Option<QuotaUsageView>,
    pub mcp_usage: Option<QuotaUsageView>,
}

impl UsageStatsView {
    /// Each record present is well formed.
    pub open spec fn wf(self) -> bool {
        &&& (self.token_usage matches Some(q) ==> q.wf())
        &&& (self.mcp_usage matches Some(q) ==> q.wf())
    }
}

impl View for UsageStats {
    type V = UsageStatsView;

    open spec fn view(&self) -> UsageStatsView {
        UsageStatsView {
            token_usage: opt_quota_view(self.token_usage),
            mcp_usage: opt_quota_view(self.mcp_usage),
        }
    }
}

fn clone_opt_quota(q: &Option<QuotaUsage>) -> (r: Option<QuotaUsage>)
    ensures
        opt_quota_view(r) == opt_quota_view(*q),
{
    match q {
        Some(u) => Some(u.clone()),
        None => None,
    }
}

impl Clone for UsageStats {
    fn clone(&self) -> (r: UsageStats)
        ensures
            r@ == self@,
    {
        UsageStats {
            token_usage: clone_opt_quota(&self.token_usage),
            mcp_usage: clone_opt_quota(&self.mcp_usage),
        }
    }
}

pub open spec fn opt_stats_view(s: Option<UsageStats>) -> Option<UsageStatsView> {
    match s {
        Some(u) => Some(u@),
        None => None,
    }
}

/// One entry of the quota-limit list as the server sends it.
#[derive(Debug)]
pub struct QuotaLimitItem {
    pub quota_type: String,
    pub usage: i64,
    pub current_value: i64,
    pub percentage: i32,
    /// Milliseconds since the Unix epoch.
    pub next_reset_time: Option<i64>,
}

pub struct QuotaLimitItemView {
    pub quota_type: Seq<char>,
    pub usage: i64,
    pub current_value: i64,
    pub percentage: i32,
    pub next_reset_time: Option<i64>,
}

impl View for QuotaLimitItem {
    type V = QuotaLimitItemView;

    open spec fn view(&self) -> QuotaLimitItemView {
        QuotaLimitItemView {
            quota_type: self.quota_type@,
            usage: self.usage,
            current_value: self.current_value,
            percentage: self.percentage,
            next_reset_time: self.next_reset_time,
        }
    }
}

#[derive(Debug)]
pub struct QuotaLimitData {
    pub limits: Vec<QuotaLimitItem>,
}

/// The quota-limit envelope.
#[derive(Debug)]
pub struct QuotaLimitResponse {
    pub code: i32,
    pub msg: String,
    pub data: QuotaLimitData,
    pub success: bool,
}

/// The views of the items of a quota-limit list.
pub open spec fn items_view(items: Seq<QuotaLimitItem>) -> Seq<QuotaLimitItemView> {
    items.map_values(|i: QuotaLimitItem| i@)
}

/// Model-usage response of the monitoring API.
#[derive(Debug)]
pub struct ModelUsageResponse {
    pub code: Option<i32>,
    pub msg: Option<String>,
    pub data: Option<ModelUsageData>,
}

#[derive(Debug)]
pub struct ModelUsageData {
    pub total: Option<i64>,
    pub completion_tokens: Option<i64>,
    pub prompt_tokens: Option<i64>,
}

/// Tool-usage response of the monitoring API.
#[derive(Debug)]
pub struct ToolUsageResponse {
    pub code: Option<i32>,
    pub msg: Option<String>,
    pub data: Option<ToolUsageData>,
}

#[derive(Debug)]
pub struct ToolUsageData {
    pub total: Option<i64>,
}

/// Failures while building a client: fatal, never retried.
#[derive(Debug, Clone, Copy, PartialEq, Eq, Structural)]
pub enum ConfigError {
    MissingCredential,
    UnknownPlatform,
}

/// Failures of one fetch attempt: each may be retried.
#[derive(Debug)]
pub enum ApiError {
    /// The request did not complete (connection, timeout).
    Transport(String),
    /// A status other than 200, with its reason phrase.
    UnexpectedStatus(u16, String),
    /// The body is not a quota-limit envelope.
    MalformedResponse(String),
    /// The envelope reports `success: false`, with its message.
    ServerRejected(String),
}

/// Why no fresh usage could be fetched.
#[derive(Debug)]
pub enum FetchError {
    Config(ConfigError),
    Api(ApiError),
}

} // verus!
