//! The quota API client: construction from settings, request shaping and
//! interpretation of one exchange with the server.
use vstd::prelude::*;
use crate::platform::{platform_of, Platform};
use crate::text::{concat_str, replace_all, replace_str, str_eq};
use crate::types::{
    items_view, ApiError, ConfigError, QuotaLimitItem, QuotaLimitItemView, QuotaLimitResponse,
    QuotaUsage, QuotaUsageView, UsageStats, UsageStatsView,
};

verus! {

/// Fixed per-request timeout.
pub const REQUEST_TIMEOUT_SECS: u64 = 5;

/// A percentage forced into `0..=100`.
pub open spec fn clamp_percentage(p: int) -> int {
    if p < 0 {
        0
    } else if p > 100 {
        100
    } else {
        p
    }
}

/// Milliseconds to whole seconds, rounding towards negative infinity.
pub open spec fn millis_to_secs(ms: int) -> int {
    ms / 1000
}

/// The first item whose tag is `tag`.
pub open spec fn find_kind(items: Seq<QuotaLimitItemView>, tag: Seq<char>) -> Option<QuotaLimitItemView>
    decreases items.len(),
{
    if items.len() == 0 {
        None
    } else if items[0].quota_type == tag {
        Some(items[0])
    } else {
        find_kind(items.drop_first(), tag)
    }
}

/// The usage record built from one wire item.
pub open spec fn quota_of_item(item: QuotaLimitItemView, window: Seq<char>) -> QuotaUsageView {
    QuotaUsageView {
        used: item.current_value,
        limit: item.usage,
        percentage: clamp_percentage(item.percentage as int) as u8,
        time_window: window,
        reset_at: match item.next_reset_time {
            Some(ms) => Some(millis_to_secs(ms as int) as i64),
            None => None,
        },
    }
}

/// The usage record of the first item tagged `tag`, if any.
pub open spec fn usage_of_kind(items: Seq<QuotaLimitItemView>, tag: Seq<char>, window: Seq<char>) -> Option<QuotaUsageView> {
    match find_kind(items, tag) {
        Some(item) => Some(quota_of_item(item, window)),
        None => None,
    }
}

/// The statistics that a successful quota-limit list yields.
pub open spec fn stats_of_items(items: Seq<QuotaLimitItemView>) -> UsageStatsView {
    UsageStatsView {
        token_usage: usage_of_kind(items, "TOKENS_LIMIT"@, "5h"@),
        mcp_usage: usage_of_kind(items, "TIME_LIMIT"@, "30d"@),
    }
}

/// Clamp a reported percentage into `0..=100`.
pub fn clamp_percentage_value(p: i32) -> (r: u8)
    ensures
        r as int == clamp_percentage(p as int),
{
    if p < 0 {
        0
    } else if p > 100 {
        100
    } else {
        p as u8
    }
}

/// Convert a millisecond timestamp to seconds.
pub fn millis_to_secs_value(ms: i64) -> (r: i64)
    ensures
        r as int == millis_to_secs(ms as int),
{
    if ms >= 0 {
        ms / 1000
    } else {
        let up: i64 = -(ms + 1);
        let q: i64 = up / 1000;
        assert((ms as int) / 1000 == -(q as int) - 1) by (nonlinear_arith)
            requires
                up as int == -(ms as int + 1),
                q as int == (up as int) / 1000,
                up >= 0,
        ;
        -q - 1
    }
}

/// Build the usage record of one wire item.
pub fn quota_from_item(item: &QuotaLimitItem, window: &str) -> (r: QuotaUsage)
    ensures
        r@ == quota_of_item(item@, window@),
{
    let reset_at = match item.next_reset_time {
        Some(ms) => Some(millis_to_secs_value(ms)),
        None => None,
    };
    QuotaUsage {
        used: item.current_value,
        limit: item.usage,
        percentage: clamp_percentage_value(item.percentage),
        time_window: String::from_str(window),
        reset_at,
    }
}

proof fn lemma_find_kind_step(items: Seq<QuotaLimitItemView>, tag: Seq<char>, i: int)
    requires
        0 <= i < items.len(),
        items[i].quota_type != tag,
    ensures
        find_kind(items.subrange(i, items.len() as int), tag) == find_kind(
            items.subrange(i + 1, items.len() as int),
            tag,
        ),
{
    assert(items.subrange(i, items.len() as int).drop_first() =~= items.subrange(
        i + 1,
        items.len() as int,
    ));
}

/// The usage record of the first item tagged `tag`, labelled `window`.
pub fn usage_from_items(items: &Vec<QuotaLimitItem>, tag: &str, window: &str) -> (r: Option<QuotaUsage>)
    ensures
        match r {
            Some(u) => usage_of_kind(items_view(items@), tag@, window@) == Some(u@),
            None => usage_of_kind(items_view(items@), tag@, window@) is None,
        },
{
    let ghost iv = items_view(items@);
    let mut i: usize = 0;
    assert(iv.subrange(0, iv.len() as int) =~= iv);
    while i < items.len()
        invariant
            iv == items_view(items@),
            i <= items.len(),
            find_kind(iv, tag@) == find_kind(iv.subrange(i as int, iv.len() as int), tag@),
        decreases items.len() - i,
    {
        let item = &items[i];
        assert(iv[i as int] == item@);
        if str_eq(item.quota_type.as_str(), tag) {
            assert(iv.subrange(i as int, iv.len() as int)[0] == item@);
            return Some(quota_from_item(item, window));
        }
        proof {
            lemma_find_kind_step(iv, tag@, i as int);
        }
        i = i + 1;
    }
    None
}

/// Every record built from the wire has its percentage in range.
pub proof fn lemma_stats_of_items_wf(items: Seq<QuotaLimitItemView>)
    ensures
        stats_of_items(items).wf(),
{
}

/// The statistics of a successful quota-limit list.
pub fn stats_from_items(items: &Vec<QuotaLimitItem>) -> (r: UsageStats)
    ensures
        r@ == stats_of_items(items_view(items@)),
        r@.wf(),
{
    proof {
        reveal_strlit("TOKENS_LIMIT");
        reveal_strlit("TIME_LIMIT");
        reveal_strlit("5h");
        reveal_strlit("30d");
    }
    proof {
        lemma_stats_of_items_wf(items_view(items@));
    }
    let token_usage = usage_from_items(items, "TOKENS_LIMIT", "5h");
    let mcp_usage = usage_from_items(items, "TIME_LIMIT", "30d");
    UsageStats { token_usage, mcp_usage }
}

/// `r` is what a quota-limit envelope yields: its statistics when it reports
/// success, else a rejection carrying its message.
pub open spec fn response_result(resp: QuotaLimitResponse, r: Result<UsageStats, ApiError>) -> bool {
    match r {
        Ok(stats) => resp.success && stats@ == stats_of_items(items_view(resp.data.limits@)),
        Err(e) => !resp.success && e == ApiError::ServerRejected(resp.msg),
    }
}

/// Turn a decoded quota-limit envelope into statistics or a rejection.
pub fn interpret_quota_response(resp: QuotaLimitResponse) -> (r: Result<UsageStats, ApiError>)
    ensures
        response_result(resp, r),
{
    if !resp.success {
        return Err(ApiError::ServerRejected(resp.msg));
    }
    Ok(stats_from_items(&resp.data.limits))
}

/// What one HTTP exchange with the quota endpoint produced.
#[derive(Debug)]
pub enum HttpOutcome {
    /// No response arrived (connection failure, timeout), with the reason.
    Transport(String),
    /// A response: status code, reason phrase, and the body decoded as a
    /// quota-limit envelope or the reason it could not be.
    Response(u16, String, Result<QuotaLimitResponse, String>),
}

/// `r` is the result of one fetch attempt that ended in `outcome`.
pub open spec fn attempt_result_spec(outcome: HttpOutcome, r: Result<UsageStats, ApiError>) -> bool {
    match outcome {
        HttpOutcome::Transport(m) => r == Err::<UsageStats, ApiError>(ApiError::Transport(m)),
        HttpOutcome::Response(code, text, body) => if code != 200 {
            r == Err::<UsageStats, ApiError>(ApiError::UnexpectedStatus(code, text))
        } else {
            match body {
                Err(m) => r == Err::<UsageStats, ApiError>(ApiError::MalformedResponse(m)),
                Ok(resp) => response_result(resp, r),
            }
        },
    }
}

/// Decide the result of one fetch attempt: transport failure, then the
/// status, then the body, then the server's own verdict.
pub fn attempt_result(outcome: HttpOutcome) -> (r: Result<UsageStats, ApiError>)
    ensures
        attempt_result_spec(outcome, r),
{
    match outcome {
        HttpOutcome::Transport(m) => Err(ApiError::Transport(m)),
        HttpOutcome::Response(code, text, body) => {
            if code != 200 {
                Err(ApiError::UnexpectedStatus(code, text))
            } else {
                match body {
                    Err(m) => Err(ApiError::MalformedResponse(m)),
                    Ok(resp) => interpret_quota_response(resp),
                }
            }
        },
    }
}

/// The base URL that the client talks to: for the mainland platform the
/// monitoring API lives above the completion API's path.
pub open spec fn monitor_base_url(url: Seq<char>, platform: Platform) -> Seq<char> {
    if platform == Platform::ZHIPU {
        replace_all(replace_all(url, "/api/anthropic"@, "/api"@), "/anthropic"@, ""@)
    } else {
        url
    }
}

/// The configured base URL, or the default endpoint.
pub open spec fn effective_base_url(base_url: Option<String>) -> Seq<char> {
    match base_url {
        Some(u) => u@,
        None => "https://open.bigmodel.cn/api/anthropic"@,
    }
}

/// An authenticated client of the quota API.
#[derive(Debug)]
pub struct GlmApiClient {
    /// Base URL of the monitoring API, already adjusted for the platform.
    pub base_url: String,
    pub token: String,
    pub platform: Platform,
}

impl GlmApiClient {
    /// Build a client from the values of the credential and base-URL
    /// settings (`None` where unset).  A missing credential or an
    /// unrecognised platform is fatal.
    pub fn from_env(token: Option<String>, base_url: Option<String>) -> (r: Result<GlmApiClient, ConfigError>)
        ensures
            token is None ==> r == Err::<GlmApiClient, ConfigError>(ConfigError::MissingCredential),
            token is Some && platform_of(effective_base_url(base_url)) is None ==> r == Err::<
                GlmApiClient,
                ConfigError,
            >(ConfigError::UnknownPlatform),
            token is Some && platform_of(effective_base_url(base_url)) is Some ==> r is Ok,
            r matches Ok(c) ==> {
                &&& platform_of(effective_base_url(base_url)) == Some(c.platform)
                &&& c.token@ == token->Some_0@
                &&& c.base_url@ == monitor_base_url(effective_base_url(base_url), c.platform)
            },
    {
        let token = match token {
            Some(t) => t,
            None => {
                return Err(ConfigError::MissingCredential);
            },
        };
        let base_url = match base_url {
            Some(u) => u,
            None => String::from_str("https://open.bigmodel.cn/api/anthropic"),
        };
        let platform = match Platform::detect_from_url(base_url.as_str()) {
            Some(p) => p,
            None => {
                return Err(ConfigError::UnknownPlatform);
            },
        };
        let base_url = if platform == Platform::ZHIPU {
            proof {
                reveal_strlit("/api/anthropic");
                reveal_strlit("/anthropic");
            }
            let first = replace_str(base_url.as_str(), "/api/anthropic", "/api");
            replace_str(first.as_str(), "/anthropic", "")
        } else {
            base_url
        };
        Ok(GlmApiClient { base_url, token, platform })
    }

    /// URL of the quota-limit endpoint.
    pub fn quota_url(&self) -> (r: String)
        ensures
            r@ == self.base_url@ + "/monitor/usage/quota/limit"@,
    {
        concat_str(self.base_url.as_str(), "/monitor/usage/quota/limit")
    }

    /// Value of the `Authorization` header.
    pub fn authorization(&self) -> (r: String)
        ensures
            r@ == "Bearer "@ + self.token@,
    {
        concat_str("Bearer ", self.token.as_str())
    }
}

} // verus!
