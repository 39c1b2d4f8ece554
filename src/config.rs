//! Plugin configuration and its defaults.
use vstd::prelude::*;
use std::collections::HashMap;

verus! {

/// The model the host reports.
#[derive(Debug, Clone)]
pub struct ModelInfo {
    pub id: String,
    pub display_name: Option<String>,
}

/// The workspace the host reports.
#[derive(Debug, Clone)]
pub struct WorkspaceInfo {
    pub current_dir: Option<String>,
}

/// Whole plugin configuration.
#[derive(Debug, Clone)]
pub struct Config {
    pub style: StyleConfig,
    pub segments: Vec<SegmentConfig>,
    pub api: ApiConfig,
    pub cache: CacheConfig,
}

/// Rendering style of the status line.
#[derive(Debug, Clone)]
pub struct StyleConfig {
    pub mode: String,
    pub separator: String,
}

/// Per-segment settings.
#[derive(Debug, Clone)]
pub struct SegmentConfig {
    pub id: String,
    pub enabled: bool,
    pub colors: HashMap<String, AnsiColor>,
    pub styles: HashMap<String, bool>,
}

/// A terminal colour: 24-bit or from the 256-colour palette.
#[derive(Debug, Clone, Copy, PartialEq, Eq, Structural)]
pub enum AnsiColor {
    Rgb { r: u8, g: u8, b: u8 },
    C256 { c256: u8 },
}

/// Request settings.
#[derive(Debug, Clone, Copy, PartialEq, Eq, Structural)]
pub struct ApiConfig {
    pub timeout_ms: u64,
    pub retry_attempts: u32,
}

/// Cache settings: whether to serve fresh cached data, and how long it stays
/// fresh.
#[derive(Debug, Clone, Copy, PartialEq, Eq, Structural)]
pub struct CacheConfig {
    pub enabled: bool,
    pub ttl_seconds: u64,
}

/// Default style mode.
pub fn default_style_mode() -> (r: String)
    ensures
        r@ == "plain"@,
{
    String::from_str("plain")
}

/// Default separator between segments.
pub fn default_separator() -> (r: String)
    ensures
        r@ == " | "@,
{
    String::from_str(" | ")
}

/// Segments are enabled unless configured otherwise.
pub fn default_enabled() -> (r: bool)
    ensures
        r,
{
    true
}

/// Default request timeout in milliseconds.
pub fn default_timeout() -> (r: u64)
    ensures
        r == 5000,
{
    5000
}

/// Default number of retries.
pub fn default_retry() -> (r: u32)
    ensures
        r == 2,
{
    2
}

/// Caching is on by default.
pub fn default_cache_enabled() -> (r: bool)
    ensures
        r,
{
    true
}

/// Default cache TTL in seconds.
pub fn default_ttl() -> (r: u64)
    ensures
        r == 300,
{
    300
}

impl Default for StyleConfig {
    /// Plain mode, `" | "` between segments.
    fn default() -> (r: StyleConfig)
        ensures
            r.mode@ == "plain"@,
            r.separator@ == " | "@,
    {
        StyleConfig { mode: default_style_mode(), separator: default_separator() }
    }
}

impl Default for ApiConfig {
    /// Timeout 5000 ms, two retries.
    fn default() -> (r: ApiConfig)
        ensures
            r.timeout_ms == 5000,
            r.retry_attempts == 2,
    {
        ApiConfig { timeout_ms: default_timeout(), retry_attempts: default_retry() }
    }
}

impl Default for CacheConfig {
    /// Enabled, with a TTL of 300 s.
    fn default() -> (r: CacheConfig)
        ensures
            r.enabled,
            r.ttl_seconds == 300,
    {
        CacheConfig { enabled: default_cache_enabled(), ttl_seconds: default_ttl() }
    }
}

impl SegmentConfig {
    /// The usage segment, enabled, in bold palette colour 109.
    pub fn default_glm_usage() -> (r: SegmentConfig)
        ensures
            r.id@ == "glm_usage"@,
            r.enabled,
    {
        let mut colors: HashMap<String, AnsiColor> = HashMap::new();
        colors.insert(String::from_str("text"), AnsiColor::C256 { c256: 109 });
        let mut styles: HashMap<String, bool> = HashMap::new();
        styles.insert(String::from_str("text_bold"), true);
        SegmentConfig { id: String::from_str("glm_usage"), enabled: true, colors, styles }
    }
}

impl Default for Config {
    /// Default style, the usage segment alone, default request and cache
    /// settings.
    fn default() -> (r: Config)
        ensures
            r.style.mode@ == "plain"@,
            r.style.separator@ == " | "@,
            r.segments@.len() == 1,
            r.segments@[0].id@ == "glm_usage"@,
            r.segments@[0].enabled,
            r.api == (ApiConfig { timeout_ms: 5000, retry_attempts: 2 }),
            r.cache == (CacheConfig { enabled: true, ttl_seconds: 300 }),
    {
        let mut segments: Vec<SegmentConfig> = Vec::new();
        segments.push(SegmentConfig::default_glm_usage());
        Config {
            style: StyleConfig::default(),
            segments,
            api: ApiConfig::default(),
            cache: CacheConfig::default(),
        }
    }
}

} // verus!
