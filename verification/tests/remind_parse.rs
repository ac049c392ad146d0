use chrono::{Local, TimeZone, Timelike};
use todo::remind::{
    parse_expr, parse_normalized, parse_reminder, parse_reminder_at, resolve, ReminderExpr,
    DAY_MS, MINUTE_MS,
};

const NOW: i64 = 1_700_000_000_000;

#[test]
fn minutes_hours_days_weeks() {
    assert_eq!(parse_normalized("15m", NOW).unwrap(), NOW + 15 * 60_000);
    assert_eq!(parse_normalized("2h", NOW).unwrap(), NOW + 2 * 60 * 60_000);
    assert_eq!(parse_normalized("1d", NOW).unwrap(), NOW + 1440 * 60_000);
    assert_eq!(parse_normalized("1w", NOW).unwrap(), NOW + 10080 * 60_000);
}

#[test]
fn every_unit_multiplies_the_number() {
    let units = [('m', 1i64), ('h', 60), ('d', 1440), ('w', 10080)];
    for n in [0i64, 1, 7, 59, 60, 365, 100_000] {
        for (letter, minutes) in units {
            let text = format!("{}{}", n, letter);
            assert_eq!(
                parse_normalized(&text, NOW).unwrap(),
                NOW + n * minutes * MINUTE_MS,
                "{}",
                text
            );
        }
    }
}

#[test]
fn signed_numbers_are_numbers() {
    assert_eq!(parse_expr("+5m"), Some(ReminderExpr::After { minutes: 5 }));
    assert_eq!(parse_expr("-5m"), Some(ReminderExpr::After { minutes: -5 }));
    assert_eq!(parse_expr("-2h"), Some(ReminderExpr::After { minutes: -120 }));
    assert_eq!(parse_expr("007d"), Some(ReminderExpr::After { minutes: 7 * 1440 }));
    assert_eq!(parse_normalized("-5m", NOW).unwrap(), NOW - 5 * 60_000);
}

#[test]
fn what_is_no_duration() {
    for text in ["", "m", "5", "5x", "m5", "5 m", "1.5h", "+m", "-m", "--5m", "5mm", "1_0m", "1é"] {
        assert_eq!(parse_expr(text), None, "{:?}", text);
    }
    assert_eq!(parse_expr("\u{ff11}\u{ff15}m"), None);
}

#[test]
fn durations_beyond_the_range_are_refused() {
    assert_eq!(parse_expr("9223372036854775807m"), Some(ReminderExpr::After { minutes: i64::MAX }));
    assert_eq!(parse_expr("9223372036854775808m"), None);
    assert_eq!(parse_expr("-9223372036854775808m"), Some(ReminderExpr::After { minutes: i64::MIN }));
    assert_eq!(parse_expr("9223372036854775807w"), None);
    assert_eq!(
        parse_expr("153722867280912930h"),
        Some(ReminderExpr::After { minutes: 9_223_372_036_854_775_800 })
    );
    assert_eq!(parse_expr("153722867280912931h"), None);
    assert!(parse_normalized("9223372036854775807m", NOW).is_err());
    let e = parse_normalized("9223372036854775807w", NOW).unwrap_err();
    assert_eq!(e.input, "9223372036854775807w");
}

#[test]
fn strict_clock_time() {
    assert_eq!(parse_expr("14:30"), Some(ReminderExpr::At { hour: 14, minute: 30 }));
    assert_eq!(parse_expr("09:00"), Some(ReminderExpr::At { hour: 9, minute: 0 }));
    assert_eq!(parse_expr("00:00"), Some(ReminderExpr::At { hour: 0, minute: 0 }));
    assert_eq!(parse_expr("23:59"), Some(ReminderExpr::At { hour: 23, minute: 59 }));
    for text in ["25:00", "24:00", "9:00", "14:60", "14:3", "14.30", "1430", "14:30:00", " 14:30", "14: 30", "ab:cd"] {
        assert_eq!(parse_expr(text), None, "{:?}", text);
    }
}

#[test]
fn invalid_hour_fails() {
    assert!(parse_normalized("25:00", NOW).is_err());
    assert!(parse_reminder("25:00").is_err());
}

#[test]
fn hour_without_padding_fails() {
    assert!(parse_normalized("9:00", NOW).is_err());
    assert!(parse_reminder("9:00").is_err());
}

#[test]
fn keywords() {
    assert_eq!(parse_expr("tomorrow"), Some(ReminderExpr::Tomorrow));
    assert_eq!(parse_expr("tom"), Some(ReminderExpr::Tomorrow));
    assert_eq!(parse_expr("tonight"), Some(ReminderExpr::Tonight));
    assert_eq!(parse_expr("today"), None);
    assert_eq!(parse_expr("tomorrow "), None);
    assert_eq!(parse_expr("Tomorrow"), None);
    assert_eq!(parse_normalized("tomorrow", NOW).unwrap(), NOW + DAY_MS);
    assert_eq!(parse_normalized("tom", NOW).unwrap(), NOW + DAY_MS);
}

#[test]
fn clock_time_rolls_to_tomorrow() {
    // The local clock shows 15:00; today's 14:30 was half an hour ago.
    let today_1430 = NOW - 30 * 60_000;
    let at = resolve(ReminderExpr::At { hour: 14, minute: 30 }, NOW, Some(today_1430));
    assert_eq!(at, Some(NOW + 23 * 3_600_000 + 30 * 60_000));
}

#[test]
fn clock_time_later_today_stays_today() {
    let today_1530 = NOW + 30 * 60_000;
    let at = resolve(ReminderExpr::At { hour: 15, minute: 30 }, NOW, Some(today_1530));
    assert_eq!(at, Some(today_1530));
}

#[test]
fn clock_time_of_this_very_instant_is_tomorrow() {
    let at = resolve(ReminderExpr::At { hour: 15, minute: 0 }, NOW, Some(NOW));
    assert_eq!(at, Some(NOW + DAY_MS));
}

#[test]
fn tonight_is_eight_in_the_evening() {
    let eight = NOW + 5 * 3_600_000;
    assert_eq!(resolve(ReminderExpr::Tonight, NOW, Some(eight)), Some(eight));
    let passed = NOW - 3_600_000;
    assert_eq!(resolve(ReminderExpr::Tonight, NOW, Some(passed)), Some(passed + DAY_MS));
    assert_eq!(ReminderExpr::Tonight.local_clock(), Some((20, 0)));
    assert_eq!(ReminderExpr::At { hour: 7, minute: 5 }.local_clock(), Some((7, 5)));
    assert_eq!(ReminderExpr::Tomorrow.local_clock(), None);
}

#[test]
fn a_wall_clock_time_that_the_zone_lacks_is_no_instant() {
    assert_eq!(resolve(ReminderExpr::At { hour: 2, minute: 30 }, NOW, None), None);
    assert_eq!(resolve(ReminderExpr::Tonight, NOW, None), None);
}

#[test]
fn resolve_refuses_what_an_i64_cannot_hold() {
    assert_eq!(resolve(ReminderExpr::Tomorrow, i64::MAX, None), None);
    assert_eq!(resolve(ReminderExpr::After { minutes: 1 }, i64::MAX - 59_999, None), None);
    assert_eq!(
        resolve(ReminderExpr::After { minutes: 1 }, i64::MAX - 60_000, None),
        Some(i64::MAX)
    );
    assert_eq!(
        resolve(ReminderExpr::After { minutes: i64::MAX }, NOW, None),
        None
    );
    assert_eq!(
        resolve(ReminderExpr::After { minutes: -1 }, i64::MIN + 60_000, None),
        Some(i64::MIN)
    );
    assert_eq!(resolve(ReminderExpr::After { minutes: -1 }, i64::MIN, None), None);
    assert_eq!(resolve(ReminderExpr::At { hour: 1, minute: 0 }, i64::MAX, Some(i64::MAX)), None);
}

#[test]
fn clock_time_is_found_on_the_local_calendar() {
    let at = parse_normalized("14:30", NOW).unwrap();
    assert!(at > NOW);
    assert!(at - NOW <= DAY_MS + 3 * 3_600_000);
    let local = Local.timestamp_millis_opt(at).single().unwrap();
    assert_eq!((local.hour(), local.minute(), local.second()), (14, 30, 0));
    assert_eq!(at % 60_000, 0);
}

#[test]
fn tonight_is_found_on_the_local_calendar() {
    let at = parse_normalized("tonight", NOW).unwrap();
    assert!(at > NOW);
    let local = Local.timestamp_millis_opt(at).single().unwrap();
    assert_eq!((local.hour(), local.minute()), (20, 0));
}

#[test]
fn input_is_trimmed_and_lowercased() {
    assert_eq!(parse_reminder_at("  2H ", NOW).unwrap(), NOW + 120 * 60_000);
    assert_eq!(parse_reminder_at("\tTOMORROW\n", NOW).unwrap(), NOW + DAY_MS);
    assert_eq!(parse_reminder_at("\u{a0}1D\u{3000}", NOW).unwrap(), NOW + DAY_MS);
    let e = parse_reminder_at("  Whenever ", NOW).unwrap_err();
    assert_eq!(e.input, "whenever");
}

#[test]
fn the_error_names_the_input_and_lists_examples() {
    let e = parse_normalized("soon", NOW).unwrap_err();
    assert_eq!(
        e.message(),
        "Invalid reminder format: 'soon'\nExamples: 15m, 2h, 1d, 14:30, tomorrow"
    );
}

#[test]
fn parse_reminder_reads_the_clock() {
    let before = Local::now().timestamp_millis();
    let at = parse_reminder("15m").unwrap();
    let after = Local::now().timestamp_millis();
    assert!(before + 15 * 60_000 <= at);
    assert!(at <= after + 15 * 60_000);
    let week = parse_reminder(" 1W ").unwrap();
    assert!((week - after - 7 * DAY_MS).abs() < 5_000);
}

#[test]
fn beyond_the_calendar_no_clock_time_is_found() {
    assert!(parse_normalized("14:30", i64::MAX).is_err());
    assert!(parse_normalized("tonight", i64::MIN).is_err());
    assert!(parse_normalized("14:30", 8_000_000_000_000_001).is_err());
    assert!(parse_normalized("14:30", 8_000_000_000_000_000).is_ok());
    assert!(parse_normalized("14:30", -8_000_000_000_000_000).is_ok());
    assert_eq!(parse_normalized("1m", i64::MIN).unwrap(), i64::MIN + 60_000);
}

#[test]
fn a_clock_time_comes_within_a_day() {
    for text in ["00:00", "06:15", "12:00", "14:30", "23:59"] {
        let at = parse_normalized(text, NOW).unwrap();
        assert!(NOW < at && at <= NOW + DAY_MS + 3_600_000, "{}", text);
    }
    let earlier = NOW - 1;
    let later = NOW + 1;
    let at = ReminderExpr::At { hour: 1, minute: 2 };
    assert_eq!(resolve(at, NOW, Some(earlier)), Some(earlier + DAY_MS));
    assert_eq!(resolve(at, NOW, Some(later)), Some(later));
}
