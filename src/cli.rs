//! Command-line switches of the plugin.
use vstd::prelude::*;

verus! {

/// Switches of the plugin's command line.
#[derive(Debug, Clone, Copy, PartialEq, Eq, Structural)]
pub struct Args {
    /// Write the default configuration file and stop.
    pub init: bool,
    /// Report failures on standard error.
    pub verbose: bool,
    /// Disable the cache for this run.
    pub no_cache: bool,
}

impl Args {
    /// Apply the switches to the cache settings: `--no-cache` turns caching
    /// off, nothing turns it on.
    pub fn cache_settings(&self, configured: crate::config::CacheConfig) -> (r: crate::config::CacheConfig)
        ensures
            r.ttl_seconds == configured.ttl_seconds,
            r.enabled == (configured.enabled && !self.no_cache),
    {
        if self.no_cache {
            crate::config::CacheConfig { enabled: false, ttl_seconds: configured.ttl_seconds }
        } else {
            configured
        }
    }
}

} // verus!
