//! Calendar text for the quota windows, through chrono.
use vstd::prelude::*;

verus! {

/// The `yyyy-MM-dd HH:mm:ss` UTC text of the instant `secs` seconds after
/// the Unix epoch, as chrono writes it.
pub uninterp spec fn utc_text(secs: int) -> Seq<char>;

/// Relies on chrono's `DateTime::<Utc>::from_timestamp` (`None` outside its
/// range) and `DateTime::format` with `%Y-%m-%d %H:%M:%S`: the text depends
/// on the instant alone.
#[verifier::external_body]
fn chrono_utc_text(secs: i64) -> (r: Option<String>)
    ensures
        r matches Some(s) ==> s@ == utc_text(secs as int),
{
    match chrono::DateTime::from_timestamp(secs, 0) {
        Some(t) => Some(t.format("%Y-%m-%d %H:%M:%S").to_string()),
        None => None,
    }
}

/// Seconds in the short quota window.
pub const FIVE_HOURS_SECS: i64 = 18000;

/// Seconds in the long quota window.
pub const THIRTY_DAYS_SECS: i64 = 2592000;

/// Formatter of quota-window bounds.
#[derive(Debug, Clone, Copy)]
pub struct TimeWindow;

impl TimeWindow {
    /// `yyyy-MM-dd HH:mm:ss` in UTC; `None` where the calendar cannot
    /// represent the instant.
    pub fn format(secs: i64) -> (r: Option<String>)
        ensures
            r matches Some(s) ==> s@ == utc_text(secs as int),
    {
        chrono_utc_text(secs)
    }

    /// Start and end of the window of `len` seconds that ends at `now`.
    pub fn window_ending_at(now: i64, len: i64) -> (r: Option<(String, String)>)
        requires
            len >= 0,
        ensures
            (now as int) - (len as int) < i64::MIN ==> r is None,
            r matches Some((a, b)) ==> a@ == utc_text(now - len) && b@ == utc_text(now as int),
    {
        if now < i64::MIN + len {
            return None;
        }
        let start = match Self::format(now - len) {
            Some(s) => s,
            None => {
                return None;
            },
        };
        let end = match Self::format(now) {
            Some(s) => s,
            None => {
                return None;
            },
        };
        Some((start, end))
    }

    /// The five hours up to `now` (seconds since the epoch).
    pub fn five_hour_window(now: i64) -> (r: Option<(String, String)>)
        ensures
            (now as int) - 18000 < i64::MIN ==> r is None,
            r matches Some((a, b)) ==> a@ == utc_text(now - 18000) && b@ == utc_text(now as int),
    {
        Self::window_ending_at(now, FIVE_HOURS_SECS)
    }

    /// The thirty days up to `now` (seconds since the epoch).
    pub fn thirty_day_window(now: i64) -> (r: Option<(String, String)>)
        ensures
            (now as int) - 2592000 < i64::MIN ==> r is None,
            r matches Some((a, b)) ==> a@ == utc_text(now - 2592000) && b@ == utc_text(now as int),
    {
        Self::window_ending_at(now, THIRTY_DAYS_SECS)
    }
}

} // verus!
