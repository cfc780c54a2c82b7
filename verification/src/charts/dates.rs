//! Calendar dates of bars. Bars are keyed by `YYYY-MM-DD` (daily) or
//! `YYYY-MM-DD HH:MM` (minute) strings in UTC; backfill requests are
//! anchored at Unix seconds.

use vstd::prelude::*;
use vstd::string::StringSliceAdditionalSpecFns;
use vstd::utf8::is_char_boundary;

verus! {

/// Pattern of a daily bar key.
pub const DAILY_PATTERN: &'static str = "%Y-%m-%d";

/// Pattern of a minute bar key.
pub const MINUTE_PATTERN: &'static str = "%Y-%m-%d %H:%M";

/// UTC midnight, in Unix seconds, of the date that
/// `chrono::NaiveDate::parse_from_str` reads from the UTF-8 `text` with
/// `pattern`; `None` when it does not parse.
pub uninterp spec fn parsed_midnight(text: Seq<u8>, pattern: Seq<char>) -> Option<i64>;

/// `chrono::DateTime::<Utc>::from_timestamp(ts, 0)` formatted with
/// `pattern`; `None` when chrono cannot represent the timestamp.
pub uninterp spec fn formatted_utc(ts: i64, pattern: Seq<char>) -> Option<Seq<char>>;

/// Parses `text` with `chrono::NaiveDate::parse_from_str(text, pattern)` and
/// returns the Unix timestamp of that date at 00:00:00 UTC.
#[verifier::external_body]
fn parse_date_midnight(text: &str, pattern: &str) -> (r: Option<i64>)
    ensures
        r == parsed_midnight(text.spec_bytes(), pattern@),
{
    match chrono::NaiveDate::parse_from_str(text, pattern) {
        Ok(date) => date.and_hms_opt(0, 0, 0).map(|dt| dt.and_utc().timestamp()),
        Err(_) => None,
    }
}

/// One of the two bar-key patterns. Both hold only valid chrono specifiers,
/// so formatting with them cannot fail (an unknown specifier would make
/// `to_string` panic).
pub open spec fn is_key_pattern(pattern: Seq<char>) -> bool {
    pattern == DAILY_PATTERN@ || pattern == MINUTE_PATTERN@
}

/// Formats `chrono::DateTime::<Utc>::from_timestamp(ts, 0)` with `pattern`;
/// `None` when chrono cannot represent the timestamp.
#[verifier::external_body]
fn format_utc(ts: i64, pattern: &str) -> (r: Option<String>)
    requires
        is_key_pattern(pattern@),
    ensures
        match formatted_utc(ts, pattern@) {
            Some(t) => r matches Some(s) && s@ == t,
            None => r is None,
        },
{
    match chrono::DateTime::<chrono::Utc>::from_timestamp(ts, 0) {
        Some(dt) => Some(dt.format(pattern).to_string()),
        None => None,
    }
}

/// `text` is the key, under `pattern`, of some whole second at or after the
/// epoch.
pub open spec fn key_of_some_instant(text: Seq<char>, pattern: Seq<char>) -> bool {
    exists|t: i64| 0 <= t && #[trigger] formatted_utc(t, pattern) == Some(text)
}

/// Formats `chrono::Utc::now()` with `pattern`. The instant depends on the
/// clock; what holds of every instant: `Utc::now` panics before the epoch, so
/// it is some non-negative whole second `t` plus a fraction, and the two key
/// patterns print no fraction, so the text is that of `t`.
#[verifier::external_body]
fn format_now_utc(pattern: &str) -> (r: String)
    requires
        is_key_pattern(pattern@),
    ensures
        key_of_some_instant(r@, pattern@),
{
    chrono::Utc::now().format(pattern).to_string()
}

/// The first ten bytes of `bytes` when they end on a character boundary
/// (`str::get(..10)`), else `None`.
pub open spec fn ten_byte_prefix(bytes: Seq<u8>) -> Option<Seq<u8>> {
    if bytes.len() >= 10 && is_char_boundary(bytes, 10) {
        Some(bytes.subrange(0, 10))
    } else {
        None
    }
}

/// `s.get(..10)` is `Some`.
fn has_ten_byte_prefix(s: &str) -> (r: bool)
    ensures
        r == ten_byte_prefix(s.spec_bytes()) is Some,
{
    let n = s.as_bytes().len();
    n >= 10 && s.is_char_boundary(10)
}

/// The `YYYY-MM-DD` prefix of an RFC 3339 timestamp: its first ten bytes,
/// or the whole text when they do not form a prefix.
pub fn date_prefix(ts: &str) -> (r: &str)
    ensures
        r.spec_bytes() == (match ten_byte_prefix(ts.spec_bytes()) {
            Some(p) => p,
            None => ts.spec_bytes(),
        }),
{
    if has_ten_byte_prefix(ts) {
        let (head, _) = ts.split_at(10);
        head
    } else {
        ts
    }
}

/// UTC midnight of the date a `YYYY-MM-DD...` text starts with.
pub open spec fn date_text_midnight(text: Seq<u8>) -> Option<i64> {
    match ten_byte_prefix(text) {
        Some(p) => parsed_midnight(p, DAILY_PATTERN@),
        None => None,
    }
}

/// Parse the `YYYY-MM-DD` prefix of a bar date into UTC midnight, anchoring
/// the next backfill at the earliest loaded bar. `None` for a missing text
/// or one that does not start with a ten-byte date.
pub fn parse_date_to_utc_midnight(s: Option<&str>) -> (r: Option<i64>)
    ensures
        r == (match s {
            Some(t) => date_text_midnight(t.spec_bytes()),
            None => None,
        }),
{
    match s {
        None => None,
        Some(t) => {
            if has_ten_byte_prefix(t) {
                let (head, _) = t.split_at(10);
                parse_date_midnight(head, DAILY_PATTERN)
            } else {
                None
            }
        },
    }
}

/// Tick timestamps arrive in seconds or milliseconds; anything past ten
/// billion (year 2286 in seconds) is milliseconds.
pub open spec fn tick_seconds(ts: i64) -> i64 {
    if ts > 10_000_000_000 {
        (ts / 1000) as i64
    } else {
        ts
    }
}

/// Normalise a tick timestamp to seconds.
pub fn normalize_tick_ts(ts: i64) -> (r: i64)
    ensures
        r == tick_seconds(ts),
{
    if ts > 10_000_000_000 {
        ts / 1000
    } else {
        ts
    }
}

/// The bar key a tick at `ts` (seconds or milliseconds) belongs to: its UTC
/// day, or its UTC minute on minute charts. A timestamp chrono cannot
/// represent falls back to the key of the current time, some instant at or
/// after the epoch.
pub fn bucket_key(ts: i64, minute: bool) -> (r: String)
    ensures
        ({
            let pattern = if minute {
                MINUTE_PATTERN@
            } else {
                DAILY_PATTERN@
            };
            &&& formatted_utc(tick_seconds(ts), pattern) matches Some(k) ==> r@ == k
            &&& formatted_utc(tick_seconds(ts), pattern) is None ==> key_of_some_instant(r@, pattern)
        }),
{
    let secs = normalize_tick_ts(ts);
    let pattern = if minute {
        MINUTE_PATTERN
    } else {
        DAILY_PATTERN
    };
    match format_utc(secs, pattern) {
        Some(s) => s,
        None => format_now_utc(pattern),
    }
}

} // verus!
