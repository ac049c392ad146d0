//! What the table of tasks shows: the width of its columns, the cell of a
//! reminder, the counts below it, and the help text. Colours and printing
//! are left to the caller.

use vstd::prelude::*;
use crate::models::Todo;
use crate::platform::{format_local, is_full_date, on_calendar, CALENDAR_SPAN_MS};
use crate::remind::{absolute_label, span_between, span_of, Span};
use crate::text::{
    byte_len, byte_len_capped, cut_is_unique, cut_place, decimal, decimal_digits, find_cut,
    fits_in, from_chars, has_cut, pad_end, pad_start, padded_end, padded_start, push_chars,
    push_decimal, to_chars,
};

verus! {

/// The sign that stands for what was cut off a title.
pub const ELLIPSIS: char = '\u{2026}';

/// The narrowest title column.
pub const MIN_TITLE_WIDTH: usize = 5;

/// The widest title column.
pub const MAX_TITLE_WIDTH: usize = 40;

/// Whether the text `s` can be cut to `max_len` bytes: it fits as it is, or
/// there is room for the ellipsis and the cut before it falls between two
/// characters.
pub open spec fn can_cut(s: Seq<char>, max_len: int) -> bool {
    byte_len(s) <= max_len || (max_len >= 1 && has_cut(s, max_len - 1))
}

/// `s` cut to `max_len` bytes of UTF-8: unchanged where it fits, else the
/// characters in its first `max_len - 1` bytes and an ellipsis.
pub open spec fn truncated(s: Seq<char>, max_len: int) -> Seq<char> {
    if byte_len(s) <= max_len {
        s
    } else {
        s.take(cut_place(s, max_len - 1)).push(ELLIPSIS)
    }
}

/// Tests whether `s` can be cut to `max_len` bytes.
pub fn can_truncate(s: &str, max_len: usize) -> (r: bool)
    ensures
        r == can_cut(s@, max_len as int),
{
    let chars = to_chars(s);
    if fits_in(&chars, max_len) {
        true
    } else if max_len == 0 {
        false
    } else {
        find_cut(&chars, max_len - 1).is_some()
    }
}

/// Cuts `s` to `max_len` bytes, with an ellipsis behind what is left where
/// something was cut off. Lengths are those of the text in UTF-8.
pub fn truncate_str(s: &str, max_len: usize) -> (r: String)
    requires
        can_cut(s@, max_len as int),
    ensures
        r@ == truncated(s@, max_len as int),
{
    let chars = to_chars(s);
    if fits_in(&chars, max_len) {
        from_chars(&chars)
    } else {
        let cut = match find_cut(&chars, max_len - 1) {
            Some(k) => k,
            None => 0,
        };
        proof {
            cut_is_unique(s@, cut_place(s@, max_len - 1), cut as int, max_len - 1);
        }
        let mut out = String::new();
        push_chars(&mut out, &chars, 0, cut);
        out.push(ELLIPSIS);
        assert(out@ =~= truncated(s@, max_len as int));
        out
    }
}

/// The length of the longest title among `todos`, in bytes of UTF-8.
pub open spec fn longest_title(todos: Seq<Todo>) -> nat
    decreases todos.len(),
{
    if todos.len() == 0 {
        0
    } else {
        let rest = longest_title(todos.drop_last());
        if byte_len(todos.last().title@) > rest {
            byte_len(todos.last().title@)
        } else {
            rest
        }
    }
}

/// The width of the title column for `todos`: that of the longest title, but
/// five characters at least and forty at most.
pub open spec fn title_width_of(todos: Seq<Todo>) -> nat {
    let longest = longest_title(todos);
    if longest < MIN_TITLE_WIDTH {
        MIN_TITLE_WIDTH as nat
    } else if longest > MAX_TITLE_WIDTH {
        MAX_TITLE_WIDTH as nat
    } else {
        longest
    }
}

/// Computes the width of the title column for `todos`.
pub fn title_width(todos: &Vec<Todo>) -> (w: usize)
    ensures
        w == title_width_of(todos@),
        MIN_TITLE_WIDTH <= w <= MAX_TITLE_WIDTH,
{
    let mut widest: usize = 0;
    let mut i: usize = 0;
    assert(todos@.take(0) =~= Seq::<Todo>::empty());
    while i < todos.len()
        invariant
            i <= todos.len(),
            widest == if longest_title(todos@.take(i as int)) <= MAX_TITLE_WIDTH {
                longest_title(todos@.take(i as int))
            } else {
                (MAX_TITLE_WIDTH + 1) as nat
            },
        decreases todos.len() - i,
    {
        assert(todos@.take(i + 1).drop_last() =~= todos@.take(i as int));
        let title = to_chars(todos[i].title.as_str());
        let len = byte_len_capped(&title, MAX_TITLE_WIDTH + 1);
        if len > widest {
            widest = len;
        }
        i += 1;
    }
    assert(todos@.take(todos.len() as int) =~= todos@);
    if widest < MIN_TITLE_WIDTH {
        MIN_TITLE_WIDTH
    } else if widest > MAX_TITLE_WIDTH {
        MAX_TITLE_WIDTH
    } else {
        widest
    }
}

/// Whether any task of `todos` has a reminder armed, so that the table needs
/// a column for reminders.
pub fn has_reminders(todos: &Vec<Todo>) -> (r: bool)
    ensures
        r == exists|i: int| 0 <= i < todos.len() && (#[trigger] todos@[i]).remind_at is Some,
{
    let mut i: usize = 0;
    while i < todos.len()
        invariant
            i <= todos.len(),
            forall|k: int| 0 <= k < i ==> (#[trigger] todos@[k]).remind_at is None,
        decreases todos.len() - i,
    {
        if todos[i].remind_at.is_some() {
            return true;
        }
        i += 1;
    }
    false
}

/// The width of the rule under the table's header.
pub fn rule_width(title_width: usize, with_reminders: bool) -> (w: usize)
    requires
        title_width <= MAX_TITLE_WIDTH,
    ensures
        w == title_width + if with_reminders {
            40int
        } else {
            30int
        },
{
    if with_reminders {
        4 + 8 + title_width + 10 + 18
    } else {
        4 + 8 + title_width + 18
    }
}

/// The words in the reminder column for a span.
pub open spec fn reminder_cell(span: Span) -> Seq<char> {
    match span {
        Span::Past => "overdue"@,
        Span::Now => "now"@,
        Span::Minutes(n) => decimal_digits(n as nat) + "m"@,
        Span::Hours(n) => decimal_digits(n as nat) + "h"@,
        Span::Days(n) => decimal_digits(n as nat) + "d"@,
    }
}

/// A number and a unit letter.
fn amount(n: u64, unit: &str) -> (r: String)
    ensures
        r@ == decimal_digits(n as nat) + unit@,
{
    let mut out = String::new();
    push_decimal(&mut out, n);
    out.append(unit);
    assert(out@ =~= decimal_digits(n as nat) + unit@);
    out
}

/// The words in the reminder column for the instant `dt` as seen from the
/// instant `now`: `overdue` once it has passed, `now` within a minute, then
/// whole minutes, hours or days.
pub fn format_reminder(dt: i64, now: i64) -> (r: String)
    ensures
        r@ == reminder_cell(span_of(dt - now)),
{
    match span_between(dt, now) {
        Span::Past => String::from_str("overdue"),
        Span::Now => String::from_str("now"),
        Span::Minutes(n) => amount(n, "m"),
        Span::Hours(n) => amount(n, "h"),
        Span::Days(n) => amount(n, "d"),
    }
}

/// The width of the column that counts the tasks.
pub const INDEX_WIDTH: usize = 2;

/// The width of the column for reminders.
pub const REMIND_WIDTH: usize = 7;

/// How the cell of a reminder is to be read.
#[derive(Clone, Copy, Debug, PartialEq, Eq, Structural)]
pub enum ReminderState {
    /// No reminder is armed.
    Unarmed,
    /// The reminder lies ahead.
    Ahead,
    /// The instant of the reminder has passed.
    Overdue,
}

/// Whether `text` shows the instant `dt` as a date: a local date and time
/// of the shape `YYYY-MM-DD HH:MM`, or `unknown` for an instant beyond the
/// calendar's span.
pub open spec fn is_date_text(text: Seq<char>, dt: i64) -> bool {
    if on_calendar(dt) {
        is_full_date(text)
    } else {
        text == "unknown"@
    }
}

/// The instant `dt` as a local date and time. Which date it is, the
/// machine's time zone decides.
pub fn format_datetime(dt: i64) -> (r: String)
    ensures
        is_date_text(r@, dt),
{
    if -CALENDAR_SPAN_MS <= dt && dt <= CALENDAR_SPAN_MS {
        absolute_label(format_local(dt, "%Y-%m-%d %H:%M"))
    } else {
        absolute_label(None)
    }
}

/// One line of the table, as plain text in columns.
#[derive(Debug, PartialEq, Eq)]
pub struct Row {
    /// The number of the task, counted from one, right-aligned.
    pub index: String,
    pub done: bool,
    /// The title, cut and filled to the width of its column.
    pub title: String,
    /// The words for the reminder, or a hyphen, right-aligned.
    pub remind: String,
    pub state: ReminderState,
    /// The date and time at which the task was made.
    pub created: String,
}

/// How the reminder `remind_at` is to be read at the instant `now`.
pub open spec fn reminder_state(remind_at: Option<i64>, now: int) -> ReminderState {
    match remind_at {
        None => ReminderState::Unarmed,
        Some(at) => if at < now {
            ReminderState::Overdue
        } else {
            ReminderState::Ahead
        },
    }
}

/// The words in the reminder column for the reminder `remind_at` at the
/// instant `now`, before they are aligned.
pub open spec fn remind_words(remind_at: Option<i64>, now: int) -> Seq<char> {
    match remind_at {
        None => "-"@,
        Some(at) => reminder_cell(span_of(at - now)),
    }
}

/// Whether `row` is the line for the task `todo` at place `place` of the
/// listing, counted from zero, with a title column of `width` characters, at
/// the instant `now`.
pub open spec fn is_row_of(row: Row, place: nat, todo: Todo, width: nat, now: int) -> bool {
    &&& row.index@ == padded_start(decimal_digits(place + 1), INDEX_WIDTH as nat)
    &&& row.done == todo.done
    &&& row.title@ == padded_end(truncated(todo.title@, width as int), width)
    &&& row.remind@ == padded_start(remind_words(todo.remind_at, now), REMIND_WIDTH as nat)
    &&& row.state == reminder_state(todo.remind_at, now)
    &&& is_date_text(row.created@, todo.created_at)
}

/// The line of the table for the task `todo` at place `place` of the
/// listing, counted from zero.
pub fn table_row(place: usize, todo: &Todo, width: usize, now: i64) -> (row: Row)
    requires
        can_cut(todo.title@, width as int),
        place < usize::MAX,
    ensures
        is_row_of(row, place as nat, *todo, width as nat, now as int),
{
    let number = decimal((place + 1) as u64);
    let cut = truncate_str(todo.title.as_str(), width);
    let (words, state) = match todo.remind_at {
        None => (String::from_str("-"), ReminderState::Unarmed),
        Some(at) => (
            format_reminder(at, now),
            if at < now {
                ReminderState::Overdue
            } else {
                ReminderState::Ahead
            },
        ),
    };
    Row {
        index: pad_start(number.as_str(), INDEX_WIDTH),
        done: todo.done,
        title: pad_end(cut.as_str(), width),
        remind: pad_start(words.as_str(), REMIND_WIDTH),
        state,
        created: format_datetime(todo.created_at),
    }
}

/// The table of tasks, as plain text in columns.
#[derive(Debug, PartialEq, Eq)]
pub struct Table {
    /// The width of the title column.
    pub title_width: usize,
    /// The heading of the title column, filled to its width.
    pub title_heading: String,
    /// Whether the table has a column for reminders.
    pub with_reminders: bool,
    /// The width of the rule under the header.
    pub rule_width: usize,
    /// One line for each task, in the order of the listing.
    pub rows: Vec<Row>,
    /// The counts below the table.
    pub summary: Summary,
}

/// Whether `table` shows the listing `todos` at the instant `now`.
pub open spec fn is_table_of(table: Table, todos: Seq<Todo>, now: int) -> bool {
    &&& table.title_width == title_width_of(todos)
    &&& table.title_heading@ == padded_end("Title"@, table.title_width as nat)
    &&& table.with_reminders == exists|i: int|
        0 <= i < todos.len() && (#[trigger] todos[i]).remind_at is Some
    &&& table.rule_width == table.title_width + if table.with_reminders {
        40int
    } else {
        30int
    }
    &&& table.rows@.len() == todos.len()
    &&& forall|i: int|
        0 <= i < todos.len() ==> is_row_of(
            #[trigger] table.rows@[i],
            i as nat,
            todos[i],
            table.title_width as nat,
            now,
        )
    &&& table.summary == summary_of(todos)
}

/// Whether the table for `todos` can be laid out: every title fits its
/// column or can be cut to it.
pub open spec fn lays_out(todos: Seq<Todo>) -> bool {
    forall|i: int|
        0 <= i < todos.len() ==> can_cut(
            (#[trigger] todos[i]).title@,
            title_width_of(todos) as int,
        )
}

/// Tests whether the table for `todos` can be laid out.
pub fn can_lay_out(todos: &Vec<Todo>) -> (r: bool)
    ensures
        r == lays_out(todos@),
{
    let width = title_width(todos);
    let mut i: usize = 0;
    while i < todos.len()
        invariant
            i <= todos.len(),
            width == title_width_of(todos@),
            forall|k: int| 0 <= k < i ==> can_cut((#[trigger] todos@[k]).title@, width as int),
        decreases todos.len() - i,
    {
        if !can_truncate(todos[i].title.as_str(), width) {
            return false;
        }
        i += 1;
    }
    true
}

/// Lays out the table for the listing `todos` at the instant `now`.
pub fn table(todos: &Vec<Todo>, now: i64) -> (r: Table)
    requires
        lays_out(todos@),
    ensures
        is_table_of(r, todos@, now as int),
{
    let width = title_width(todos);
    let with_reminders = has_reminders(todos);
    let mut rows: Vec<Row> = Vec::new();
    let mut i: usize = 0;
    while i < todos.len()
        invariant
            i <= todos.len(),
            width == title_width_of(todos@),
            lays_out(todos@),
            rows@.len() == i,
            forall|k: int|
                0 <= k < i ==> is_row_of(
                    #[trigger] rows@[k],
                    k as nat,
                    todos@[k],
                    width as nat,
                    now as int,
                ),
        decreases todos.len() - i,
    {
        rows.push(table_row(i, &todos[i], width, now));
        i += 1;
    }
    Table {
        title_width: width,
        title_heading: pad_end("Title", width),
        with_reminders,
        rule_width: rule_width(width, with_reminders),
        rows,
        summary: summarize(todos),
    }
}

/// The counts below the table.
#[derive(Clone, Copy, Debug, PartialEq, Eq, Structural)]
pub struct Summary {
    /// Tasks that are not done.
    pub pending: usize,
    /// Tasks that are done.
    pub done: usize,
    /// Pending tasks with a reminder armed.
    pub with_reminders: usize,
}

/// The counts for `todos`.
pub open spec fn summary_of(todos: Seq<Todo>) -> Summary {
    let done = todos.filter(|t: Todo| t.done).len();
    Summary {
        pending: (todos.len() - done) as usize,
        done: done as usize,
        with_reminders: todos.filter(|t: Todo| !t.done && t.remind_at is Some).len() as usize,
    }
}

/// Counts the pending tasks, the done ones and the pending ones with a
/// reminder.
pub fn summarize(todos: &Vec<Todo>) -> (r: Summary)
    ensures
        r == summary_of(todos@),
        r.pending + r.done == todos.len(),
        r.with_reminders <= r.pending,
{
    let ghost is_done = |t: Todo| t.done;
    let ghost is_armed = |t: Todo| !t.done && t.remind_at is Some;
    let mut done: usize = 0;
    let mut armed: usize = 0;
    let mut i: usize = 0;
    assert(todos@.take(0) =~= Seq::<Todo>::empty());
    while i < todos.len()
        invariant
            i <= todos.len(),
            is_done == |t: Todo| t.done,
            is_armed == |t: Todo| !t.done && t.remind_at is Some,
            done == todos@.take(i as int).filter(is_done).len(),
            armed == todos@.take(i as int).filter(is_armed).len(),
            done + armed <= i,
        decreases todos.len() - i,
    {
        proof {
            assert(todos@.take(i + 1) =~= todos@.take(i as int).push(todos@[i as int]));
            todos@.take(i as int).lemma_filter_push(todos@[i as int], is_done);
            todos@.take(i as int).lemma_filter_push(todos@[i as int], is_armed);
        }
        if todos[i].done {
            done += 1;
        } else if todos[i].remind_at.is_some() {
            armed += 1;
        }
        i += 1;
    }
    assert(todos@.take(todos.len() as int) =~= todos@);
    Summary { pending: todos.len() - done, done, with_reminders: armed }
}

/// The help text: the commands, the forms of a reminder and how to have
/// reminders delivered.
pub const USAGE: &'static str = "
Todo CLI v0.3.0

USAGE:
    todo <command> [arguments]

COMMANDS:
    add <title> [-r <time>]   Add a new todo
    list                  List all todos
    done <#>                Mark a todo as done
    undone <#>              Mark a todo as pending
    edit <#> <title>      Edit a todo's title
    remind <#> <time>      Set/clear a reminder
    rm <#>                  Remove a todo
    clear                 Clear completed todos
    notify                Send due notifications
    help                  Show this help

REMINDER FORMATS:
    15m            15 minutes from now
    2h             2 hours from now
    1d             1 day from now
    1w             1 week from now
    14:30           At 2:30 PM today/tomorrow
    tomorrow        Tomorrow same time

EXAMPLES:
    todo add \"Buy groceries\"
    todo add \"Meeting\" -r 2h
    todo remind 1 15m
    todo remind 1 clear

NOTIFICATIONS:
    Run todo notify periodically via cron or launchd
    Example crontab: * * * * * todo notify

";

/// The help text.
pub fn usage() -> (r: &'static str)
    ensures
        r@ == USAGE@,
{
    USAGE
}

} // verus!
