//! Reminder expressions: reading what the user typed, turning it into an
//! instant, and describing an instant relative to the present.
//!
//! Instants are milliseconds since the Unix epoch, held in an `i64`.

use vstd::prelude::*;
use crate::platform::{
    clock_millis, format_local, is_month_day_time, local_time_on_day_of, on_calendar,
    within_chrono, CALENDAR_SPAN_MS,
};
use crate::text::{
    all_digits, check_digit, decimal_digits, decimal_digits_round_trip, digit_value,
    digits_value, is_digit, lowercase, lowercase_of, push_decimal, read_signed, same_chars,
    signed_literal, to_chars, trim, trimmed, value_of_digit,
};

verus! {

/// Milliseconds in a minute.
pub const MINUTE_MS: i64 = 60_000;

/// Milliseconds in an hour.
pub const HOUR_MS: i64 = 3_600_000;

/// Milliseconds in a day.
pub const DAY_MS: i64 = 86_400_000;

/// The hour of the evening at which `tonight` rings.
pub const EVENING_HOUR: u8 = 20;

/// What a reminder expression asks for.
#[derive(Clone, Copy, Debug, PartialEq, Eq, Structural)]
pub enum ReminderExpr {
    /// A number of minutes from now; negative numbers lie in the past.
    After { minutes: i64 },
    /// The next time the local clock shows `hour:minute`.
    At { hour: u8, minute: u8 },
    /// Twenty-four hours from now.
    Tomorrow,
    /// The next time the local clock shows eight in the evening.
    Tonight,
}

/// The minutes in one unit of a duration: `m`, `h`, `d` or `w`.
pub open spec fn unit_minutes(unit: char) -> Option<int> {
    if unit == 'm' {
        Some(1)
    } else if unit == 'h' {
        Some(60)
    } else if unit == 'd' {
        Some(1440)
    } else if unit == 'w' {
        Some(10080)
    } else {
        None
    }
}

/// The minutes that a relative duration stands for: a signed decimal number
/// and one unit letter behind it, where the product fits an `i64`.
pub open spec fn duration_minutes(s: Seq<char>) -> Option<int> {
    if s.len() >= 2 {
        match (signed_literal(s.drop_last()), unit_minutes(s.last())) {
            (Some(n), Some(u)) => if i64::MIN <= n * u <= i64::MAX {
                Some(n * u)
            } else {
                None
            },
            _ => None,
        }
    } else {
        None
    }
}

/// The hour and the minute of a clock time `HH:MM`: two digits, a colon, two
/// digits, at most 23 hours and 59 minutes.
pub open spec fn clock_time(s: Seq<char>) -> Option<(int, int)> {
    if s.len() == 5 && is_digit(s[0]) && is_digit(s[1]) && s[2] == ':' && is_digit(s[3])
        && is_digit(s[4]) {
        let hour = digit_value(s[0]) * 10 + digit_value(s[1]);
        let minute = digit_value(s[3]) * 10 + digit_value(s[4]);
        if hour <= 23 && minute <= 59 {
            Some((hour as int, minute as int))
        } else {
            None
        }
    } else {
        None
    }
}

/// What a relative keyword asks for: `tomorrow`, `tom` or `tonight`.
pub open spec fn keyword(s: Seq<char>) -> Option<ReminderExpr> {
    if s == "tomorrow"@ || s == "tom"@ {
        Some(ReminderExpr::Tomorrow)
    } else if s == "tonight"@ {
        Some(ReminderExpr::Tonight)
    } else {
        None
    }
}

/// What a trimmed, lower-case expression asks for. A duration is tried first,
/// then a clock time, then the keywords.
pub open spec fn reminder_expr(s: Seq<char>) -> Option<ReminderExpr> {
    if let Some(minutes) = duration_minutes(s) {
        Some(ReminderExpr::After { minutes: minutes as i64 })
    } else if let Some((hour, minute)) = clock_time(s) {
        Some(ReminderExpr::At { hour: hour as u8, minute: minute as u8 })
    } else {
        keyword(s)
    }
}

/// Reads a relative duration such as `15m`, `2h`, `1d` or `1w`.
pub fn parse_duration(chars: &Vec<char>) -> (r: Option<i64>)
    ensures
        r == match duration_minutes(chars@) {
            Some(m) => Some(m as i64),
            None => None,
        },
{
    let len = chars.len();
    if len < 2 {
        return None;
    }
    let unit = chars[len - 1];
    let per_unit: i64 = if unit == 'm' {
        1
    } else if unit == 'h' {
        60
    } else if unit == 'd' {
        1440
    } else if unit == 'w' {
        10080
    } else {
        return None;
    };
    assert(unit_minutes(chars@.last()) == Some(per_unit as int));
    assert(chars@.drop_last() =~= chars@.subrange(0, len - 1));
    proof {
        if let Some(n) = signed_literal(chars@.drop_last()) {
            let u = per_unit as int;
            if n > 0 {
                assert(n * u >= n) by (nonlinear_arith)
                    requires
                        n > 0,
                        u >= 1,
                ;
            } else {
                assert(n * u <= n) by (nonlinear_arith)
                    requires
                        n <= 0,
                        u >= 1,
                ;
            }
        }
    }
    match read_signed(chars, 0, len - 1) {
        Some(number) => number.checked_mul(per_unit),
        None => None,
    }
}

/// Reads a clock time `HH:MM`.
pub fn parse_time(chars: &Vec<char>) -> (r: Option<(u8, u8)>)
    ensures
        r == match clock_time(chars@) {
            Some((h, m)) => Some((h as u8, m as u8)),
            None => None,
        },
{
    if chars.len() != 5 {
        return None;
    }
    if !check_digit(chars[0]) || !check_digit(chars[1]) || chars[2] != ':' || !check_digit(
        chars[3],
    ) || !check_digit(chars[4]) {
        return None;
    }
    let hour: u8 = value_of_digit(chars[0]) * 10 + value_of_digit(chars[1]);
    let minute: u8 = value_of_digit(chars[3]) * 10 + value_of_digit(chars[4]);
    if hour <= 23 && minute <= 59 {
        Some((hour, minute))
    } else {
        None
    }
}

/// Reads a relative keyword.
pub fn parse_relative(chars: &Vec<char>) -> (r: Option<ReminderExpr>)
    ensures
        r == keyword(chars@),
{
    if same_chars(chars, &to_chars("tomorrow")) || same_chars(chars, &to_chars("tom")) {
        Some(ReminderExpr::Tomorrow)
    } else if same_chars(chars, &to_chars("tonight")) {
        Some(ReminderExpr::Tonight)
    } else {
        None
    }
}

/// Reads a trimmed, lower-case reminder expression.
pub fn parse_expr(input: &str) -> (r: Option<ReminderExpr>)
    ensures
        r == reminder_expr(input@),
        r matches Some(expr) ==> expr.is_time_of_day(),
{
    let chars = to_chars(input);
    if let Some(minutes) = parse_duration(&chars) {
        return Some(ReminderExpr::After { minutes });
    }
    if let Some((hour, minute)) = parse_time(&chars) {
        return Some(ReminderExpr::At { hour, minute });
    }
    parse_relative(&chars)
}

impl ReminderExpr {
    /// Whether the clock time of the expression, if it has one, is a time of
    /// the day: at most 23 hours and 59 minutes.
    pub open spec fn is_time_of_day(self) -> bool {
        self matches ReminderExpr::At { hour, minute } ==> hour <= 23 && minute <= 59
    }

    /// The local wall-clock time that the expression names, if it names one.
    pub open spec fn wall_clock(self) -> Option<(u8, u8)> {
        match self {
            ReminderExpr::At { hour, minute } => Some((hour, minute)),
            ReminderExpr::Tonight => Some((EVENING_HOUR, 0u8)),
            _ => None,
        }
    }

    /// The local wall-clock time that the expression names, if it names one.
    pub fn local_clock(&self) -> (r: Option<(u8, u8)>)
        ensures
            r == self.wall_clock(),
    {
        match self {
            ReminderExpr::At { hour, minute } => Some((*hour, *minute)),
            ReminderExpr::Tonight => Some((EVENING_HOUR, 0u8)),
            _ => None,
        }
    }
}

/// A wall-clock instant that has passed moves to the next day.
pub open spec fn roll_forward(candidate: int, now: int) -> int {
    if candidate <= now {
        candidate + DAY_MS
    } else {
        candidate
    }
}

/// The instant that `expr` stands for at the instant `now`.
///
/// `local_today` is the instant at which the local clock shows the
/// expression's wall-clock time on the day of `now`; an expression that needs
/// it and does not get it stands for nothing.
pub open spec fn resolved(expr: ReminderExpr, now: int, local_today: Option<i64>) -> Option<int> {
    match expr {
        ReminderExpr::After { minutes } => Some(now + minutes * MINUTE_MS),
        ReminderExpr::Tomorrow => Some(now + DAY_MS),
        ReminderExpr::At { .. } | ReminderExpr::Tonight => match local_today {
            Some(candidate) => Some(roll_forward(candidate as int, now)),
            None => None,
        },
    }
}

/// `t` as an instant, where it fits one.
pub open spec fn as_instant(t: Option<int>) -> Option<i64> {
    match t {
        Some(t) => if i64::MIN <= t <= i64::MAX {
            Some(t as i64)
        } else {
            None
        },
        None => None,
    }
}

/// Computes the instant that `expr` stands for at the instant `now`, or
/// `None` where there is none or it lies beyond what an `i64` holds.
pub fn resolve(expr: ReminderExpr, now: i64, local_today: Option<i64>) -> (r: Option<i64>)
    ensures
        r == as_instant(resolved(expr, now as int, local_today)),
{
    match expr {
        ReminderExpr::After { minutes } => {
            let span: i128 = (minutes as i128) * (MINUTE_MS as i128);
            let target: i128 = (now as i128) + span;
            if (i64::MIN as i128) <= target && target <= (i64::MAX as i128) {
                Some(target as i64)
            } else {
                None
            }
        },
        ReminderExpr::Tomorrow => now.checked_add(DAY_MS),
        ReminderExpr::At { .. } | ReminderExpr::Tonight => match local_today {
            Some(candidate) => if candidate <= now {
                candidate.checked_add(DAY_MS)
            } else {
                Some(candidate)
            },
            None => None,
        },
    }
}

/// An expression that stands for no instant.
#[derive(Debug, PartialEq, Eq)]
pub struct ReminderError {
    /// The expression as it was read: trimmed and in lower case.
    pub input: String,
}

impl ReminderError {
    /// The text of the message for an expression `input`.
    pub open spec fn message_text(input: Seq<char>) -> Seq<char> {
        "Invalid reminder format: '"@ + input
            + "'\nExamples: 15m, 2h, 1d, 14:30, tomorrow"@
    }

    /// The message for the user: it names the expression and lists formats
    /// that are understood.
    pub fn message(&self) -> (r: String)
        ensures
            r@ == Self::message_text(self.input@),
    {
        let mut out = String::from_str("Invalid reminder format: '");
        out.append(self.input.as_str());
        out.append("'\nExamples: 15m, 2h, 1d, 14:30, tomorrow");
        out
    }
}

/// Whether `r` is what the trimmed, lower-case expression `s` comes to at the
/// instant `now`, where `local_today` is the instant of its wall-clock time on
/// the day of `now`.
///
/// An expression that fits no grammar, or whose instant does not exist or
/// does not fit an `i64`, gives an error that carries the expression.
pub open spec fn is_reading_of(
    r: Result<i64, ReminderError>,
    s: Seq<char>,
    now: int,
    local_today: Option<i64>,
) -> bool {
    let instant = match reminder_expr(s) {
        Some(expr) => as_instant(resolved(expr, now, local_today)),
        None => None,
    };
    match instant {
        Some(t) => r matches Ok(at) && at == t,
        None => r matches Err(e) && e.input@ == s,
    }
}

/// Whether the expression `s` names a time on the local clock, so that the
/// time zone has a say in what it comes to.
pub open spec fn names_wall_clock(s: Seq<char>) -> bool {
    reminder_expr(s) matches Some(expr) && expr.wall_clock() is Some
}

/// Turns the outcome of a resolution into the result for the user.
pub fn conclude(input: &str, instant: Option<i64>) -> (r: Result<i64, ReminderError>)
    ensures
        match instant {
            Some(t) => r matches Ok(at) && at == t,
            None => r matches Err(e) && e.input@ == input@,
        },
{
    match instant {
        Some(t) => Ok(t),
        None => Err(ReminderError { input: String::from_str(input) }),
    }
}

/// Reads a trimmed, lower-case reminder expression at the instant `now`.
///
/// A duration or `tomorrow` is settled by `now` alone. A clock time or
/// `tonight` also depends on the machine's time zone: the result is then what
/// `resolve` gives for the local instant that the time zone supplied. For a
/// `now` beyond the calendar's span the time zone is not asked, and supplies
/// nothing.
pub fn parse_normalized(input: &str, now: i64) -> (r: Result<i64, ReminderError>)
    ensures
        exists|local_today: Option<i64>| is_reading_of(r, input@, now as int, local_today),
        !names_wall_clock(input@) || !on_calendar(now) ==> is_reading_of(
            r,
            input@,
            now as int,
            None,
        ),
{
    match parse_expr(input) {
        Some(expr) => {
            let local_today = match expr.local_clock() {
                Some((hour, minute)) => if -CALENDAR_SPAN_MS <= now && now <= CALENDAR_SPAN_MS {
                    local_time_on_day_of(now, hour, minute)
                } else {
                    None
                },
                None => None,
            };
            let r = conclude(input, resolve(expr, now, local_today));
            assert(is_reading_of(r, input@, now as int, local_today));
            r
        },
        None => {
            let r = conclude(input, None);
            assert(is_reading_of(r, input@, now as int, None));
            r
        },
    }
}

/// The form in which an expression is read: without the whitespace around
/// it, in lower case.
pub open spec fn normalized(input: Seq<char>) -> Seq<char> {
    lowercase_of(trimmed(input))
}

/// Brings an expression into the form in which it is read.
pub fn normalize(input: &str) -> (r: String)
    ensures
        r@ == normalized(input@),
{
    let t = trim(input);
    lowercase(t.as_str())
}

/// Reads a reminder expression as the user typed it, at the instant `now`.
pub fn parse_reminder_at(input: &str, now: i64) -> (r: Result<i64, ReminderError>)
    ensures
        exists|local_today: Option<i64>|
            is_reading_of(r, normalized(input@), now as int, local_today),
        !names_wall_clock(normalized(input@)) || !on_calendar(now) ==> is_reading_of(
            r,
            normalized(input@),
            now as int,
            None,
        ),
{
    let text = normalize(input);
    parse_normalized(text.as_str(), now)
}

/// Whether `r` is what the trimmed, lower-case expression `s` comes to at
/// some instant that the clock can show, in some time zone.
pub open spec fn is_reading_now(r: Result<i64, ReminderError>, s: Seq<char>) -> bool {
    exists|now: i64, local_today: Option<i64>|
        within_chrono(now) && #[trigger] is_reading_of(r, s, now as int, local_today)
}

/// Reads a reminder expression as the user typed it, at the present instant.
///
/// The clock decides what the present is, so the contract speaks of some
/// instant that the clock can show; `parse_reminder_at` is the same function
/// with the instant given.
pub fn parse_reminder(input: &str) -> (r: Result<i64, ReminderError>)
    ensures
        is_reading_now(r, normalized(input@)),
{
    let now = clock_millis();
    let r = parse_reminder_at(input, now);
    let ghost local_today = choose|local_today: Option<i64>|
        is_reading_of(r, normalized(input@), now as int, local_today);
    assert(is_reading_of(r, normalized(input@), now as int, local_today));
    r
}

/// The instant that lies `n` units after `now`, for a unit letter `unit`.
pub open spec fn units_after(now: int, n: nat, unit: char) -> int {
    now + n * unit_minutes(unit).unwrap() * MINUTE_MS
}

/// A whole number of minutes, hours, days or weeks, written in decimal with
/// the unit letter behind it, reads as `now` plus that many units, wherever
/// that instant fits an `i64`; the time zone has no say in it.
pub proof fn duration_adds_to_now(n: nat, unit: char, now: i64, local_today: Option<i64>)
    requires
        unit_minutes(unit) is Some,
        units_after(now as int, n, unit) <= i64::MAX,
    ensures
        duration_minutes(decimal_digits(n).push(unit)) == Some(
            n * unit_minutes(unit).unwrap(),
        ),
        !names_wall_clock(decimal_digits(n).push(unit)),
        forall|r: Result<i64, ReminderError>| #[trigger]
            is_reading_of(r, decimal_digits(n).push(unit), now as int, local_today) ==> r
                == Ok::<i64, ReminderError>(units_after(now as int, n, unit) as i64),
{
    let digits = decimal_digits(n);
    let s = digits.push(unit);
    let u = unit_minutes(unit).unwrap();
    decimal_digits_round_trip(n);
    assert(s.drop_last() =~= digits);
    assert(s.last() == unit);
    assert(is_digit(digits[0]));
    assert(signed_literal(digits) == Some(n as int));
    assert(0 <= n * u <= n * u * MINUTE_MS) by (nonlinear_arith)
        requires
            n >= 0,
            u >= 1,
    ;
    assert(duration_minutes(s) == Some(n * u));
    assert(reminder_expr(s) == Some(ReminderExpr::After { minutes: (n * u) as i64 }));
}

/// A clock time that has passed today, or is just striking, comes round a
/// day later: seen at 15:00, `14:30` lies twenty-three and a half hours
/// ahead.
pub proof fn passed_clock_time_is_tomorrow(hour: u8, minute: u8, now: i64, local_today: i64)
    requires
        local_today <= now,
        local_today + DAY_MS <= i64::MAX,
    ensures
        as_instant(resolved(ReminderExpr::At { hour, minute }, now as int, Some(local_today)))
            == Some((local_today + DAY_MS) as i64),
        local_today == now - 30 * MINUTE_MS ==> local_today + DAY_MS == now + 23 * HOUR_MS + 30
            * MINUTE_MS,
{
}

/// A clock time, or `tonight`, comes within a day: where the instant at
/// which the local clock shows it today lies less than a day from `now`, as
/// it does on a day without a change of the clock, the reminder falls after
/// `now` and no more than twenty-four hours after it; it falls today if the
/// time is still to come, and a day later if not.
pub proof fn clock_time_comes_within_a_day(expr: ReminderExpr, now: i64, local_today: i64)
    requires
        expr.wall_clock() is Some,
        now - DAY_MS < local_today < now + DAY_MS,
        now + DAY_MS <= i64::MAX,
    ensures
        as_instant(resolved(expr, now as int, Some(local_today))) matches Some(t) && now < t
            <= now + DAY_MS && t == if local_today > now {
            local_today as int
        } else {
            local_today + DAY_MS
        },
{
}

/// How far ahead an instant lies, in the largest unit that it fills.
#[derive(Clone, Copy, Debug, PartialEq, Eq, Structural)]
pub enum Span {
    /// The instant has passed.
    Past,
    /// Less than a minute ahead.
    Now,
    /// Whole minutes ahead, fewer than sixty.
    Minutes(u64),
    /// Whole hours ahead, fewer than twenty-four.
    Hours(u64),
    /// Whole days ahead, one or more.
    Days(u64),
}

/// The span of a difference `diff` in milliseconds, target minus now. Parts
/// of a unit are dropped.
pub open spec fn span_of(diff: int) -> Span {
    if diff < 0 {
        Span::Past
    } else if diff < MINUTE_MS {
        Span::Now
    } else if diff < HOUR_MS {
        Span::Minutes((diff / MINUTE_MS as int) as u64)
    } else if diff < DAY_MS {
        Span::Hours((diff / HOUR_MS as int) as u64)
    } else {
        Span::Days((diff / DAY_MS as int) as u64)
    }
}

/// The span from `now` to `target`.
pub fn span_between(target: i64, now: i64) -> (r: Span)
    ensures
        r == span_of(target - now),
{
    let diff: i128 = (target as i128) - (now as i128);
    if diff < 0 {
        Span::Past
    } else if diff < MINUTE_MS as i128 {
        Span::Now
    } else if diff < HOUR_MS as i128 {
        Span::Minutes((diff / (MINUTE_MS as i128)) as u64)
    } else if diff < DAY_MS as i128 {
        Span::Hours((diff / (HOUR_MS as i128)) as u64)
    } else {
        Span::Days((diff / (DAY_MS as i128)) as u64)
    }
}

/// The words for a span where a reminder is confirmed, or `None` for a week
/// or more, which is shown as a date.
pub open spec fn relative_text(span: Span) -> Option<Seq<char>> {
    match span {
        Span::Past | Span::Now => Some("now"@),
        Span::Minutes(n) => Some("in "@ + decimal_digits(n as nat) + "m"@),
        Span::Hours(n) => Some("in "@ + decimal_digits(n as nat) + "h"@),
        Span::Days(n) => if n < 7 {
            Some("in "@ + decimal_digits(n as nat) + "d"@)
        } else {
            None
        },
    }
}

/// Whether `label` describes the instant `dt` as seen from `now`, where a
/// reminder is confirmed: in relative words up to a week ahead; from then on
/// as a local date of the shape `MM-DD HH:MM`, or as `unknown` for an
/// instant beyond the calendar's span.
pub open spec fn is_remind_at_label(label: Seq<char>, dt: i64, now: int) -> bool {
    match relative_text(span_of(dt - now)) {
        Some(text) => label == text,
        None => if on_calendar(dt) {
            is_month_day_time(label)
        } else {
            label == "unknown"@
        },
    }
}

/// `in `, the number and the unit letter.
fn ahead(n: u64, unit: &str) -> (r: String)
    ensures
        r@ == "in "@ + decimal_digits(n as nat) + unit@,
{
    let mut out = String::from_str("in ");
    push_decimal(&mut out, n);
    out.append(unit);
    out
}

/// The words for a span up to a week ahead.
pub fn relative_label(span: Span) -> (r: Option<String>)
    ensures
        match relative_text(span) {
            Some(text) => r matches Some(label) && label@ == text,
            None => r is None,
        },
{
    match span {
        Span::Past | Span::Now => Some(String::from_str("now")),
        Span::Minutes(n) => Some(ahead(n, "m")),
        Span::Hours(n) => Some(ahead(n, "h")),
        Span::Days(n) => if n < 7 {
            Some(ahead(n, "d"))
        } else {
            None
        },
    }
}

/// The words for a date that may be missing.
pub fn absolute_label(absolute: Option<String>) -> (r: String)
    ensures
        r@ == match absolute {
            Some(date) => date@,
            None => "unknown"@,
        },
{
    match absolute {
        Some(date) => date,
        None => String::from_str("unknown"),
    }
}

/// Describes the instant `dt` as seen from the instant `now`, for the line
/// that confirms a reminder.
///
/// Up to a week ahead the words are settled by the two instants. From a week
/// on they are the local month, day and time, which the time zone decides.
pub fn format_remind_at_from(dt: i64, now: i64) -> (r: String)
    ensures
        is_remind_at_label(r@, dt, now as int),
{
    match relative_label(span_between(dt, now)) {
        Some(label) => label,
        None => if -CALENDAR_SPAN_MS <= dt && dt <= CALENDAR_SPAN_MS {
            absolute_label(format_local(dt, "%m-%d %H:%M"))
        } else {
            absolute_label(None)
        },
    }
}

/// Describes the instant `dt` as seen from the present, for the line that
/// confirms a reminder. The clock decides what the present is.
pub fn format_remind_at(dt: i64) -> (r: String)
    ensures
        exists|now: i64| within_chrono(now) && #[trigger] is_remind_at_label(r@, dt, now as int),
{
    let now = clock_millis();
    let r = format_remind_at_from(dt, now);
    assert(is_remind_at_label(r@, dt, now as int));
    r
}

/// `s` with a backslash before every double quote.
pub open spec fn escaped(s: Seq<char>) -> Seq<char>
    decreases s.len(),
{
    if s.len() == 0 {
        Seq::empty()
    } else if s.last() == '"' {
        escaped(s.drop_last()).push('\\').push('"')
    } else {
        escaped(s.drop_last()).push(s.last())
    }
}

/// Appends `s` to `out`, with a backslash before every double quote.
pub fn push_escaped(out: &mut String, s: &str)
    ensures
        final(out)@ == old(out)@ + escaped(s@),
{
    let chars = to_chars(s);
    let mut i: usize = 0;
    assert(chars@.take(0) =~= Seq::<char>::empty());
    assert(out@ =~= old(out)@ + escaped(chars@.take(0)));
    while i < chars.len()
        invariant
            i <= chars.len(),
            out@ == old(out)@ + escaped(chars@.take(i as int)),
        decreases chars.len() - i,
    {
        let ghost so_far = escaped(chars@.take(i as int));
        assert(chars@.take(i + 1).drop_last() =~= chars@.take(i as int));
        if chars[i] == '"' {
            out.push('\\');
            out.push('"');
            assert(out@ =~= old(out)@ + so_far.push('\\').push('"'));
        } else {
            out.push(chars[i]);
            assert(out@ =~= old(out)@ + so_far.push(chars@[i as int]));
        }
        i += 1;
    }
    assert(chars@.take(chars.len() as int) =~= chars@);
}

/// The script that shows a notification with the words `message` under the
/// heading `Todo Reminder`, with `title` as its second line.
pub open spec fn script_text(title: Seq<char>, message: Seq<char>) -> Seq<char> {
    "display notification \""@ + escaped(message) + "\" with title \"Todo Reminder\" subtitle \""@
        + escaped(title) + "\""@
}

/// Writes the script that shows a notification for a task: double quotes in
/// the two texts are escaped, so that neither can end its string early.
pub fn notification_script(title: &str, message: &str) -> (r: String)
    ensures
        r@ == script_text(title@, message@),
{
    let mut out = String::from_str("display notification \"");
    push_escaped(&mut out, message);
    out.append("\" with title \"Todo Reminder\" subtitle \"");
    push_escaped(&mut out, title);
    out.append("\"");
    out
}

} // verus!
