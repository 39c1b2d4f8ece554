//! The backend platform, derived from the configured base URL.
use vstd::prelude::*;
use crate::text::{seq_contains, str_contains};

verus! {

/// The remote service variant behind the configured endpoint.
#[derive(Debug, Clone, Copy, PartialEq, Eq, Structural)]
pub enum Platform {
    ZAI,
    ZHIPU,
}

/// The platform that `url` names, if any: the international marker wins
/// over the two mainland markers.
pub open spec fn platform_of(url: Seq<char>) -> Option<Platform> {
    if seq_contains(url, "api.z.ai"@) {
        Some(Platform::ZAI)
    } else if seq_contains(url, "bigmodel.cn"@) || seq_contains(url, "zhipu"@) {
        Some(Platform::ZHIPU)
    } else {
        None
    }
}

impl Platform {
    /// Case-sensitive substring detection, with no normalisation of the URL.
    pub fn detect_from_url(base_url: &str) -> (r: Option<Platform>)
        ensures
            r == platform_of(base_url@),
    {
        if str_contains(base_url, "api.z.ai") {
            Some(Platform::ZAI)
        } else if str_contains(base_url, "bigmodel.cn") || str_contains(base_url, "zhipu") {
            Some(Platform::ZHIPU)
        } else {
            None
        }
    }
}

} // verus!
