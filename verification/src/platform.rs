//! The few places where the library leans on code that Verus does not see:
//! strings and the case tables of std, the clock, the local time zone and
//! identifiers. Every contract in this file is believed, not proved.

use chrono::TimeZone;
use vstd::prelude::*;

verus! {

/// `String::push` of std appends the character to the end of the string.
pub assume_specification[ String::push ](s: &mut String, ch: char)
    ensures
        final(s)@ == old(s)@.push(ch),
;

/// The lowercase form of a text, as `str::to_lowercase` of std computes it
/// from the Unicode tables.
pub uninterp spec fn lowercased(s: Seq<char>) -> Seq<char>;

/// Calls `str::to_lowercase`. The result depends on the characters alone, so
/// contracts can speak of it by name.
#[verifier::external_body]
pub(crate) fn to_lowercase(s: &str) -> (r: String)
    ensures
        r@ == lowercased(s@),
{
    s.to_lowercase()
}

/// How far from 1970 the calendar is asked about an instant, in
/// milliseconds: some 253,000 years either way. chrono's own calendar ends
/// some thousands of years further out, and within a day of its ends it
/// gives up on local times.
pub const CALENDAR_SPAN_MS: i64 = 8_000_000_000_000_000;

/// Whether the calendar is asked about the instant `millis`.
pub open spec fn on_calendar(millis: i64) -> bool {
    -CALENDAR_SPAN_MS <= millis <= CALENDAR_SPAN_MS
}

/// The pattern for a month, a day and a time of day.
pub open spec fn month_day_pattern() -> Seq<char> {
    "%m-%d %H:%M"@
}

/// Whether `s` has the shape `MM-DD HH:MM`: four numbers of two digits each
/// with a hyphen, a space and a colon between them.
pub open spec fn is_month_day_time(s: Seq<char>) -> bool {
    &&& s.len() == 11
    &&& s[2] == '-'
    &&& s[5] == ' '
    &&& s[8] == ':'
    &&& forall|i: int|
        0 <= i < 11 && i != 2 && i != 5 && i != 8 ==> '0' <= #[trigger] s[i] && s[i] <= '9'
}

/// How far from 1970 chrono's dates reach at most, in milliseconds: its
/// years end before 262143 either way, which is less than nine thousand
/// billion seconds.
pub const CHRONO_SPAN_MS: i64 = 9_000_000_000_000_000;

/// Whether chrono can have a date for the instant `millis`.
pub open spec fn within_chrono(millis: i64) -> bool {
    -CHRONO_SPAN_MS <= millis <= CHRONO_SPAN_MS
}

/// Reads the system clock with `chrono::Local::now` and hands back the
/// milliseconds since the Unix epoch (`DateTime::timestamp_millis`). The
/// value is whatever the clock says; as the instant of one of chrono's
/// dates it lies within their reach. chrono gives up on a clock set before
/// 1970 or beyond its dates.
#[verifier::external_body]
pub(crate) fn clock_millis() -> (now: i64)
    ensures
        within_chrono(now),
{
    chrono::Local::now().timestamp_millis()
}

/// The instant at which the local clock shows `hour:minute` on the local
/// calendar day that holds the instant `now`, in milliseconds since the epoch.
///
/// chrono does the work: `TimeZone::timestamp_millis_opt` and
/// `DateTime::date_naive` find the day, `NaiveDate::and_hms_opt` the wall-clock
/// time, `TimeZone::from_local_datetime` the instant. The result is `None`
/// where chrono cannot represent the wall-clock time, or where the time zone
/// has no such local time on that day, or has it twice. The answer depends
/// on the machine's time zone, so nothing is claimed of it. chrono gives up
/// where the time zone's data hold no rule for the instant.
#[verifier::external_body]
pub(crate) fn local_time_on_day_of(now: i64, hour: u8, minute: u8) -> (r: Option<i64>)
    requires
        on_calendar(now),
{
    let today = chrono::Local.timestamp_millis_opt(now).single()?.date_naive();
    let wall = today.and_hms_opt(u32::from(hour), u32::from(minute), 0)?;
    chrono::Local.from_local_datetime(&wall).single().map(|t| t.timestamp_millis())
}

/// The pattern for a full date and a time of day.
pub open spec fn full_date_pattern() -> Seq<char> {
    "%Y-%m-%d %H:%M"@
}

/// Whether `s` has the shape `YYYY-MM-DD HH:MM`, with four characters or
/// more for the year, which may carry a sign.
pub open spec fn is_full_date(s: Seq<char>) -> bool {
    &&& s.len() >= 16
    &&& s[s.len() - 12] == '-'
    &&& is_month_day_time(s.skip(s.len() - 11))
}

/// The instant `millis` (milliseconds since the epoch) written in local time
/// by `DateTime::format` of chrono.
///
/// Only the library's two patterns are admitted: chrono fails on a pattern
/// that it cannot read. For an instant on the calendar
/// `TimeZone::timestamp_millis_opt` has a single local time, so there is a
/// text. Which date and time it shows depends on the machine's time zone;
/// chrono's table of specifiers promises two digits for each of `%m`, `%d`,
/// `%H` and `%M` and four characters at least for `%Y`, and so the shape of
/// the text. chrono gives up where the time zone's data hold no rule for the
/// instant.
#[verifier::external_body]
pub(crate) fn format_local(millis: i64, pattern: &str) -> (r: Option<String>)
    requires
        on_calendar(millis),
        pattern@ == month_day_pattern() || pattern@ == full_date_pattern(),
    ensures
        r is Some,
        pattern@ == month_day_pattern() ==> is_month_day_time(r.unwrap()@),
        pattern@ == full_date_pattern() ==> is_full_date(r.unwrap()@),
{
    chrono::Local.timestamp_millis_opt(millis).single().map(|t| t.format(pattern).to_string())
}

/// Twelve fresh bytes for an identifier, from `ObjectId::new` of the `bson`
/// crate that `polodb_core` hands on: a time stamp, a random value of the
/// process and a counter. Two calls differ, so nothing is claimed of the
/// bytes. `ObjectId::new` gives up on a clock set before 1970 or after 2106.
#[verifier::external_body]
pub(crate) fn fresh_id_bytes() -> (bytes: [u8; 12]) {
    polodb_core::bson::oid::ObjectId::new().bytes()
}

/// The present instant as the store counts it: `DateTime::now` of the `bson`
/// crate that `polodb_core` hands on, in milliseconds since the Unix epoch
/// (`DateTime::timestamp_millis`). Nothing is claimed of the value.
#[verifier::external_body]
pub(crate) fn store_clock_millis() -> (now: i64) {
    polodb_core::bson::DateTime::now().timestamp_millis()
}

} // verus!
