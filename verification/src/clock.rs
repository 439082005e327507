//! Points in time, as milliseconds since the Unix epoch, and durations.
use chrono::TimeZone;
use vstd::prelude::*;
use crate::text::{decimal, decimal_text};

verus! {

/// The first and the last millisecond the calendar reaches: the beginning of
/// the year -262143 and the end of the year 262142.
pub const FIRST_MILLIS: i64 = -8_334_601_228_800_000;

pub const LAST_MILLIS: i64 = 8_210_266_876_799_999;

/// Whether the calendar reaches a millisecond count.
pub open spec fn on_calendar(ms: i64) -> bool {
    FIRST_MILLIS <= ms <= LAST_MILLIS
}

/// `TimeZone::timestamp_millis_opt` of `chrono`'s `Utc`, and the result's own
/// milliseconds: a count gives that very instant where the calendar reaches
/// it, and none elsewhere.
#[verifier::external_body]
fn utc_millis(ms: i64) -> (r: Option<i64>)
    ensures
        r == (if on_calendar(ms) {
            Some(ms)
        } else {
            None
        }),
{
    match chrono::Utc.timestamp_millis_opt(ms).single() {
        Some(at) => Some(at.timestamp_millis()),
        None => None,
    }
}

/// The instant a stored millisecond count stands for: none for an unset or
/// negative count, nor past the end of the calendar.
pub open spec fn instant(ms: i64) -> Option<i64> {
    if 0 < ms <= LAST_MILLIS {
        Some(ms)
    } else {
        None
    }
}

pub fn millis(ms: i64) -> (r: Option<i64>)
    ensures
        r == instant(ms),
{
    if ms > 0 {
        utc_millis(ms)
    } else {
        None
    }
}

/// A UTC instant written out by a pattern.
pub uninterp spec fn utc_text(ms: i64, pattern: Seq<char>) -> Seq<char>;

/// How a moment is written for a reader.
pub open spec fn moment_pattern() -> Seq<char> {
    "%Y-%m-%d %H:%M UTC"@
}

/// `DateTime::format` of `chrono`, on the UTC instant of a millisecond count:
/// the text is a function of the instant and the pattern. Other patterns are
/// left out, since one that is not valid panics.
#[verifier::external_body]
fn format_utc(ms: i64, pattern: &str) -> (r: String)
    requires
        on_calendar(ms),
        pattern@ == moment_pattern(),
    ensures
        r@ == utc_text(ms, pattern@),
{
    match chrono::Utc.timestamp_millis_opt(ms).single() {
        Some(at) => at.format(pattern).to_string(),
        None => String::new(),
    }
}

/// A moment for a reader, before the epoch or after it.
pub open spec fn moment_text(ms: i64) -> Option<Seq<char>> {
    if on_calendar(ms) {
        Some(utc_text(ms, moment_pattern()))
    } else {
        None
    }
}

/// A moment for a reader, such as `2026-01-31 09:05 UTC`.
pub fn moment(ms: i64) -> (r: Option<String>)
    ensures
        r.deep_view() == moment_text(ms),
{
    match utc_millis(ms) {
        Some(ms) => Some(format_utc(ms, "%Y-%m-%d %H:%M UTC")),
        None => None,
    }
}

/// Whole seconds from one instant to another, towards zero.
pub open spec fn seconds_between(start: int, end: int) -> int {
    if end >= start {
        (end - start) / 1000
    } else {
        -((start - end) / 1000)
    }
}

/// A running time in words: seconds under a minute, minutes under an hour,
/// then hours and minutes. A clock that ran backwards counts as zero.
pub open spec fn elapsed_text(seconds: int) -> Seq<char> {
    if seconds <= 0 {
        "0s"@
    } else if seconds < 60 {
        decimal_text(seconds as nat) + "s"@
    } else if seconds < 3600 {
        decimal_text((seconds / 60) as nat) + "m"@
    } else {
        decimal_text((seconds / 3600) as nat) + "h "@ + decimal_text(
            (seconds % 3600 / 60) as nat,
        ) + "m"@
    }
}

/// The time from one instant to another, in words.
pub fn elapsed_between(start: i64, end: i64) -> (r: String)
    ensures
        r@ == elapsed_text(seconds_between(start as int, end as int)),
{
    if end <= start {
        return "0s".to_owned();
    }
    let seconds: u64 = ((end as i128 - start as i128) / 1000) as u64;
    if seconds == 0 {
        return "0s".to_owned();
    }
    if seconds < 60 {
        let mut out: String = decimal(seconds);
        out.append("s");
        return out;
    }
    if seconds < 3600 {
        let mut out: String = decimal(seconds / 60);
        out.append("m");
        return out;
    }
    let mut out: String = decimal(seconds / 3600);
    out.append("h ");
    let minutes: String = decimal(seconds % 3600 / 60);
    out.append(minutes.as_str());
    out.append("m");
    out
}

} // verus!
