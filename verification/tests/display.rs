use chrono::{Local, TimeZone};
use todo::display::{
    can_lay_out, can_truncate, format_datetime, has_reminders, rule_width, summarize, table,
    table_row, title_width, truncate_str, usage, ReminderState, Row, Summary,
};
use todo::models::{TaskId, Todo};

fn task(title: &str, done: bool, remind_at: Option<i64>) -> Todo {
    Todo {
        id: TaskId { bytes: [0; 12] },
        title: title.to_string(),
        done,
        created_at: 0,
        remind_at,
        notified: false,
    }
}

fn cut_by_slicing(s: &str, max_len: usize) -> String {
    if s.len() <= max_len {
        s.to_string()
    } else {
        format!("{}\u{2026}", &s[..max_len - 1])
    }
}

fn created(millis: i64) -> String {
    Local.timestamp_millis_opt(millis).single().unwrap().format("%Y-%m-%d %H:%M").to_string()
}

#[test]
fn short_titles_are_left_alone() {
    assert_eq!(truncate_str("milk", 5), "milk");
    assert_eq!(truncate_str("bread", 5), "bread");
    assert_eq!(truncate_str("", 1), "");
    assert_eq!(truncate_str("", 0), "");
}

#[test]
fn long_titles_end_in_an_ellipsis() {
    assert_eq!(truncate_str("butter", 5), "butt\u{2026}");
    assert_eq!(truncate_str("butter", 1), "\u{2026}");
    assert_eq!(truncate_str("a very long title indeed", 10), "a very lo\u{2026}");
}

#[test]
fn titles_are_measured_in_bytes() {
    // Three letters of two bytes each are six bytes long.
    assert_eq!(truncate_str("\u{e9}\u{e9}\u{e9}", 5), "\u{e9}\u{e9}\u{2026}");
    assert_eq!(truncate_str("\u{e9}\u{e9}\u{e9}", 6), "\u{e9}\u{e9}\u{e9}");
    assert_eq!(truncate_str("\u{e9}\u{e9}\u{e9}\u{e9}", 3), "\u{e9}\u{2026}");
    assert_eq!(truncate_str("a\u{20ac}\u{1f600}z", 5), "a\u{20ac}\u{2026}");
    assert_eq!(truncate_str("a\u{20ac}\u{1f600}z", 9), "a\u{20ac}\u{1f600}z");
}

#[test]
fn a_cut_must_fall_between_two_characters() {
    assert!(can_truncate("\u{e9}\u{e9}\u{e9}", 5));
    assert!(!can_truncate("\u{e9}\u{e9}\u{e9}", 4));
    assert!(can_truncate("\u{e9}\u{e9}\u{e9}", 6));
    assert!(can_truncate("\u{e9}\u{e9}\u{e9}", 100));
    assert!(can_truncate("", 0));
    assert!(!can_truncate("x", 0));
    assert!(can_truncate("xy", 1));
    assert!(!can_truncate("a\u{1f600}b", 3));
    assert!(!can_truncate("a\u{1f600}b", 4));
    assert!(!can_truncate("a\u{1f600}b", 5));
    assert!(can_truncate("a\u{1f600}b", 2));
}

#[test]
fn cutting_agrees_with_slicing_the_string() {
    let texts = ["", "a", "butter", "\u{e9}t\u{e9}", "\u{20ac}uro", "\u{1f600}\u{1f600}", "na\u{ef}ve caf\u{e9}"];
    for text in texts {
        for max_len in 0..16usize {
            let sliceable = text.len() <= max_len
                || (max_len >= 1 && text.is_char_boundary(max_len - 1));
            assert_eq!(can_truncate(text, max_len), sliceable, "{:?} {}", text, max_len);
            if sliceable {
                assert_eq!(truncate_str(text, max_len), cut_by_slicing(text, max_len));
            }
        }
    }
}

#[test]
fn the_title_column_is_between_five_and_forty_wide() {
    assert_eq!(title_width(&vec![]), 5);
    assert_eq!(title_width(&vec![task("abc", false, None)]), 5);
    assert_eq!(title_width(&vec![task("abcdefg", false, None), task("ab", true, None)]), 7);
    let long = "x".repeat(41);
    assert_eq!(title_width(&vec![task("abc", false, None), task(&long, false, None)]), 40);
    assert_eq!(title_width(&vec![task(&"y".repeat(40), false, None)]), 40);
    assert_eq!(title_width(&vec![task("\u{e9}\u{e9}\u{e9}", false, None)]), 6);
    assert_eq!(title_width(&vec![task(&"\u{1f600}".repeat(10), false, None)]), 40);
    assert_eq!(title_width(&vec![task(&"\u{1f600}".repeat(11), false, None)]), 40);
}

#[test]
fn the_reminder_column_appears_with_the_first_reminder() {
    assert!(!has_reminders(&vec![]));
    assert!(!has_reminders(&vec![task("a", false, None), task("b", true, None)]));
    assert!(has_reminders(&vec![task("a", false, None), task("b", true, Some(1))]));
}

#[test]
fn the_rule_spans_the_columns() {
    assert_eq!(rule_width(5, false), 35);
    assert_eq!(rule_width(5, true), 45);
    assert_eq!(rule_width(40, true), 80);
}

#[test]
fn the_summary_counts_what_is_listed() {
    assert_eq!(summarize(&vec![]), Summary { pending: 0, done: 0, with_reminders: 0 });
    let todos = vec![
        task("a", false, None),
        task("b", false, Some(5)),
        task("c", true, Some(5)),
        task("d", true, None),
        task("e", false, Some(9)),
    ];
    assert_eq!(summarize(&todos), Summary { pending: 3, done: 2, with_reminders: 2 });
}

#[test]
fn the_help_text_names_every_command() {
    let text = usage();
    for word in [
        "add <title>", "list", "done <#>", "undone <#>", "edit <#> <title>",
        "remind <#> <time>", "rm <#>", "clear", "notify", "help", "15m", "14:30", "tomorrow",
    ] {
        assert!(text.contains(word), "{}", word);
    }
    assert!(text.starts_with("\nTodo CLI v0.3.0\n"));
}

#[test]
fn a_row_holds_the_cells_of_a_task() {
    let now = 1_700_000_000_000;
    assert_eq!(
        table_row(0, &task("milk", false, None), 6, now),
        Row {
            index: " 1".to_string(),
            done: false,
            title: "milk  ".to_string(),
            remind: "      -".to_string(),
            state: ReminderState::Unarmed,
            created: created(0),
        }
    );
    assert_eq!(
        table_row(11, &task("a long title", true, Some(now + 2 * 3_600_000)), 6, now),
        Row {
            index: "12".to_string(),
            done: true,
            title: "a lon\u{2026}".to_string(),
            remind: "     2h".to_string(),
            state: ReminderState::Ahead,
            created: created(0),
        }
    );
    assert_eq!(
        table_row(99, &task("x", false, Some(now - 1)), 5, now),
        Row {
            index: "100".to_string(),
            done: false,
            title: "x    ".to_string(),
            remind: "overdue".to_string(),
            state: ReminderState::Overdue,
            created: created(0),
        }
    );
    let at_once = table_row(0, &task("x", false, Some(now)), 5, now);
    assert_eq!((at_once.remind.as_str(), at_once.state), ("    now", ReminderState::Ahead));
}

#[test]
fn the_table_lays_out_every_task() {
    let now = 1_700_000_000_000;
    let todos = vec![
        task("water the plants", false, Some(now + 86_400_000)),
        task("call", true, None),
    ];
    let t = table(&todos, now);
    assert_eq!(t.title_width, 16);
    assert_eq!(t.title_heading, "Title           ");
    assert!(t.with_reminders);
    assert_eq!(t.rule_width, 56);
    assert_eq!(t.summary, Summary { pending: 1, done: 1, with_reminders: 1 });
    assert_eq!(t.rows.len(), 2);
    assert_eq!(t.rows[0], table_row(0, &todos[0], 16, now));
    assert_eq!(t.rows[1], table_row(1, &todos[1], 16, now));
    assert_eq!(t.rows[0].remind, "     1d");
    assert_eq!(t.rows[1].title, "call            ");

    let empty = table(&vec![], now);
    assert_eq!((empty.title_width, empty.with_reminders, empty.rule_width), (5, false, 35));
    assert_eq!(empty.title_heading, "Title");
    assert_eq!(empty.rows, vec![]);
}

#[test]
fn dates_are_local_and_bounded_by_the_calendar() {
    let millis = 1_700_000_000_000;
    assert_eq!(format_datetime(millis), created(millis));
    assert_eq!(format_datetime(millis).len(), 16);
    assert_eq!(format_datetime(0), created(0));
    assert_eq!(format_datetime(-1), created(-1));
    assert_eq!(format_datetime(8_000_000_000_000_000), created(8_000_000_000_000_000));
    assert_eq!(format_datetime(8_000_000_000_000_001), "unknown");
    assert_eq!(format_datetime(i64::MIN), "unknown");
}

#[test]
fn a_table_needs_titles_that_can_be_cut() {
    assert!(can_lay_out(&vec![]));
    assert!(can_lay_out(&vec![task("short", false, None), task(&"x".repeat(80), true, None)]));
    // Forty bytes fit the widest column as they are.
    let fitting = format!("{}\u{e9}", "x".repeat(38));
    assert!(can_lay_out(&vec![task(&fitting, false, None)]));
    // Forty-one bytes with a two-byte letter across the cut after thirty-nine.
    let split = format!("{}\u{e9}x", "x".repeat(38));
    assert!(!can_lay_out(&vec![task(&split, false, None)]));
    // Forty-one bytes with the letter just before the cut.
    let fine = format!("{}\u{e9}xx", "x".repeat(37));
    assert!(can_lay_out(&vec![task(&fine, false, None)]));
    let t = table(&vec![task(&fine, false, None)], 0);
    assert_eq!(t.title_width, 40);
    assert_eq!(t.rows[0].title, format!("{}\u{e9}\u{2026} ", "x".repeat(37)));
    assert_eq!(t.rows[0].title, format!("{:40}", cut_by_slicing(&fine, 40)));
}
