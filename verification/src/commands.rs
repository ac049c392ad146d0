//! The decisions behind each command: what is wrong with the arguments, what
//! the store is asked to change, and what the user is told. Reading and
//! writing the store, and printing, are the caller's part.

use vstd::prelude::*;
use crate::db::StoreChange;
use crate::display::{is_table_of, lays_out, table, Table};
use crate::models::Todo;
use crate::platform::within_chrono;
use crate::remind::{
    format_remind_at, is_reading_now, is_remind_at_label, normalized, notification_script,
    parse_reminder, script_text, ReminderError,
};
use crate::text::{
    decimal_digits, has_prefix, join_spaced, join_words, push_decimal, read_unsigned, same_chars,
    starts_with_at, text_from, to_chars, trim, trimmed, trimmed_is_stable, unsigned_literal,
};

verus! {

/// What the program can be asked to do.
#[derive(Clone, Copy, Debug, PartialEq, Eq, Structural)]
pub enum Command {
    Add,
    List,
    Done,
    Undone,
    Edit,
    Remind,
    Remove,
    Clear,
    Notify,
    Help,
}

/// The command that `word` stands for, by its name or one of its short
/// forms.
pub open spec fn command_named(word: Seq<char>) -> Option<Command> {
    if word == "add"@ || word == "a"@ {
        Some(Command::Add)
    } else if word == "list"@ || word == "ls"@ || word == "l"@ {
        Some(Command::List)
    } else if word == "done"@ || word == "d"@ {
        Some(Command::Done)
    } else if word == "undone"@ || word == "u"@ {
        Some(Command::Undone)
    } else if word == "edit"@ || word == "e"@ {
        Some(Command::Edit)
    } else if word == "remind"@ {
        Some(Command::Remind)
    } else if word == "rm"@ || word == "remove"@ || word == "r"@ {
        Some(Command::Remove)
    } else if word == "clear"@ {
        Some(Command::Clear)
    } else if word == "notify"@ {
        Some(Command::Notify)
    } else if word == "help"@ || word == "--help"@ || word == "-h"@ {
        Some(Command::Help)
    } else {
        None
    }
}

/// Whether `word` is one of `names`.
fn is_one_of(word: &Vec<char>, names: &[&str]) -> (r: bool)
    ensures
        r == exists|i: int| 0 <= i < names@.len() && word@ == (#[trigger] names@[i])@,
{
    let mut i: usize = 0;
    while i < names.len()
        invariant
            i <= names.len(),
            forall|k: int| 0 <= k < i ==> word@ != (#[trigger] names@[k])@,
        decreases names.len() - i,
    {
        if same_chars(word, &to_chars(names[i])) {
            return true;
        }
        i += 1;
    }
    false
}

/// Finds the command that `word` stands for.
pub fn command_for(word: &str) -> (r: Option<Command>)
    ensures
        r == command_named(word@),
{
    let w = to_chars(word);
    if is_one_of(&w, &["add", "a"]) {
        Some(Command::Add)
    } else if is_one_of(&w, &["list", "ls", "l"]) {
        Some(Command::List)
    } else if is_one_of(&w, &["done", "d"]) {
        Some(Command::Done)
    } else if is_one_of(&w, &["undone", "u"]) {
        Some(Command::Undone)
    } else if is_one_of(&w, &["edit", "e"]) {
        Some(Command::Edit)
    } else if is_one_of(&w, &["remind"]) {
        Some(Command::Remind)
    } else if is_one_of(&w, &["rm", "remove", "r"]) {
        Some(Command::Remove)
    } else if is_one_of(&w, &["clear"]) {
        Some(Command::Clear)
    } else if is_one_of(&w, &["notify"]) {
        Some(Command::Notify)
    } else if is_one_of(&w, &["help", "--help", "-h"]) {
        Some(Command::Help)
    } else {
        None
    }
}

/// A command that takes the number of a task and nothing else.
#[derive(Clone, Copy, Debug, PartialEq, Eq, Structural)]
pub enum Verb {
    Done,
    Undone,
    Remove,
}

/// Why a command was not carried out.
#[derive(Debug, PartialEq, Eq)]
pub enum CommandError {
    /// `add` without any argument.
    MissingTitle,
    /// `add` with a title that is empty once trimmed.
    EmptyTitle,
    /// The number of a task is missing.
    MissingNumber(Verb),
    /// `edit` with fewer than two arguments.
    MissingEditArguments,
    /// `edit` with a new title that is empty once trimmed.
    EmptyNewTitle,
    /// `remind` without any argument.
    MissingRemindArguments,
    /// What stands for the number of a task is no number.
    InvalidNumber { input: String },
    /// The number of a task is zero.
    ZeroIndex,
    /// The list has `count` tasks, fewer than `index`.
    NotFound { index: usize, count: usize },
    /// The reminder expression stands for no instant.
    Reminder(ReminderError),
}

/// The word by which a verb is typed.
pub open spec fn verb_word(verb: Verb) -> Seq<char> {
    match verb {
        Verb::Done => "done"@,
        Verb::Undone => "undone"@,
        Verb::Remove => "rm"@,
    }
}

impl CommandError {
    /// The text of the message for the user.
    pub open spec fn message_text(self) -> Seq<char> {
        match self {
            CommandError::MissingTitle =>
                "Missing title. Usage: todo add \"your task\" [--remind 15m]"@,
            CommandError::EmptyTitle => "Title cannot be empty"@,
            CommandError::MissingNumber(verb) => "Missing todo number. Usage: todo "@ + verb_word(
                verb,
            ) + " <#>"@,
            CommandError::MissingEditArguments =>
                "Missing arguments. Usage: todo edit <#> \"new title\""@,
            CommandError::EmptyNewTitle => "New title cannot be empty"@,
            CommandError::MissingRemindArguments =>
                "Usage: todo remind <#> <time>  or  todo remind <#> clear"@,
            CommandError::InvalidNumber { input } => "Invalid number: "@ + input@
                + ". Use a number like 1, 2, 3..."@,
            CommandError::ZeroIndex => "Todo numbers start at 1"@,
            CommandError::NotFound { index, count } => "Todo #"@ + decimal_digits(index as nat)
                + " not found. You have "@ + decimal_digits(count as nat) + " todos."@,
            CommandError::Reminder(e) => ReminderError::message_text(e.input@),
        }
    }

    /// The message for the user.
    pub fn message(&self) -> (r: String)
        ensures
            r@ == self.message_text(),
    {
        match self {
            CommandError::MissingTitle => String::from_str(
                "Missing title. Usage: todo add \"your task\" [--remind 15m]",
            ),
            CommandError::EmptyTitle => String::from_str("Title cannot be empty"),
            CommandError::MissingNumber(verb) => {
                let mut out = String::from_str("Missing todo number. Usage: todo ");
                match verb {
                    Verb::Done => out.append("done"),
                    Verb::Undone => out.append("undone"),
                    Verb::Remove => out.append("rm"),
                }
                out.append(" <#>");
                out
            },
            CommandError::MissingEditArguments => String::from_str(
                "Missing arguments. Usage: todo edit <#> \"new title\"",
            ),
            CommandError::EmptyNewTitle => String::from_str("New title cannot be empty"),
            CommandError::MissingRemindArguments => String::from_str(
                "Usage: todo remind <#> <time>  or  todo remind <#> clear",
            ),
            CommandError::InvalidNumber { input } => {
                let mut out = String::from_str("Invalid number: ");
                out.append(input.as_str());
                out.append(". Use a number like 1, 2, 3...");
                out
            },
            CommandError::ZeroIndex => String::from_str("Todo numbers start at 1"),
            CommandError::NotFound { index, count } => {
                let mut out = String::from_str("Todo #");
                push_decimal(&mut out, *index as u64);
                out.append(" not found. You have ");
                push_decimal(&mut out, *count as u64);
                out.append(" todos.");
                out
            },
            CommandError::Reminder(e) => e.message(),
        }
    }
}

/// The number that `s` spells as the user types the number of a task: an
/// unsigned decimal literal that fits a `usize`.
pub open spec fn task_number(s: Seq<char>) -> Option<usize> {
    match unsigned_literal(s) {
        Some(n) => if n <= usize::MAX {
            Some(n as usize)
        } else {
            None
        },
        None => None,
    }
}

/// What the number typed as `s` picks in the listing `todos`: the number
/// and the task at that place, counted from one.
pub open spec fn picked(todos: Seq<Todo>, s: Seq<char>) -> Option<(usize, Todo)> {
    match task_number(s) {
        Some(n) => if 1 <= n <= todos.len() {
            Some((n, todos[n - 1]))
        } else {
            None
        },
        None => None,
    }
}

/// Whether `e` says why the number typed as `s` picks nothing in `todos`:
/// it is no number, it is zero, or the listing is shorter.
pub open spec fn is_lookup_failure(e: CommandError, todos: Seq<Todo>, s: Seq<char>) -> bool {
    match task_number(s) {
        None => e matches CommandError::InvalidNumber { input } && input@ == s,
        Some(n) => if n == 0 {
            e is ZeroIndex
        } else {
            e matches CommandError::NotFound { index, count } && index == n && count
                == todos.len() && n > todos.len()
        },
    }
}

/// Finds the task that the user means by the number `index_str`, a place in
/// the listing `todos` counted from one.
pub fn get_todo_by_index(todos: &Vec<Todo>, index_str: &str) -> (r: Result<
    (usize, Todo),
    CommandError,
>)
    ensures
        match picked(todos@, index_str@) {
            Some(found) => r == Ok::<(usize, Todo), CommandError>(found),
            None => r matches Err(e) && is_lookup_failure(e, todos@, index_str@),
        },
{
    let chars = to_chars(index_str);
    assert(chars@.subrange(0, chars.len() as int) =~= chars@);
    let number = match read_unsigned(&chars, 0, chars.len()) {
        Some(n) => n,
        None => {
            return Err(CommandError::InvalidNumber { input: String::from_str(index_str) });
        },
    };
    if number > usize::MAX as u64 {
        return Err(CommandError::InvalidNumber { input: String::from_str(index_str) });
    }
    let index = number as usize;
    if index == 0 {
        return Err(CommandError::ZeroIndex);
    }
    if index - 1 >= todos.len() {
        return Err(CommandError::NotFound { index, count: todos.len() });
    }
    Ok((index, todos[index - 1].clone()))
}

/// Whether `arg` is the flag that announces a reminder in the next argument.
pub open spec fn is_remind_flag(arg: Seq<char>) -> bool {
    arg == "--remind"@ || arg == "-r"@
}

/// The reminder that `arg` carries behind an equals sign, if it is of the
/// form `--remind=<time>` or `-r=<time>`: all that follows the first equals
/// sign.
pub open spec fn inline_reminder(arg: Seq<char>) -> Option<Seq<char>> {
    if has_prefix(arg, "--remind="@) {
        Some(arg.skip("--remind="@.len() as int))
    } else if has_prefix(arg, "-r="@) {
        Some(arg.skip("-r="@.len() as int))
    } else {
        None
    }
}

/// The arguments from place `i` on that are no part of a reminder flag. A
/// flag in the last place has no value behind it and counts as a word.
pub open spec fn words_from(args: Seq<String>, i: int) -> Seq<String>
    decreases args.len() - i,
{
    if i < 0 || i >= args.len() {
        Seq::empty()
    } else if is_remind_flag(args[i]@) && i + 1 < args.len() {
        words_from(args, i + 2)
    } else if inline_reminder(args[i]@) is Some {
        words_from(args, i + 1)
    } else {
        seq![args[i]] + words_from(args, i + 1)
    }
}

/// The reminder that the arguments from place `i` on give; of several the
/// last one counts.
pub open spec fn reminder_from(args: Seq<String>, i: int) -> Option<Seq<char>>
    decreases args.len() - i,
{
    if i < 0 || i >= args.len() {
        None
    } else if is_remind_flag(args[i]@) && i + 1 < args.len() {
        match reminder_from(args, i + 2) {
            Some(later) => Some(later),
            None => Some(args[i + 1]@),
        }
    } else if inline_reminder(args[i]@) is Some {
        match reminder_from(args, i + 1) {
            Some(later) => Some(later),
            None => inline_reminder(args[i]@),
        }
    } else {
        reminder_from(args, i + 1)
    }
}

/// Splits the arguments into the words of the title and the reminder
/// expression: `--remind <time>`, `-r <time>`, `--remind=<time>` or
/// `-r=<time>`, wherever it stands.
pub fn extract_reminder(args: &[String]) -> (r: (Vec<String>, Option<String>))
    ensures
        r.0@ == words_from(args@, 0),
        match reminder_from(args@, 0) {
            Some(expr) => r.1 matches Some(found) && found@ == expr,
            None => r.1 is None,
        },
{
    let long_flag = to_chars("--remind");
    let short_flag = to_chars("-r");
    let long_prefix = to_chars("--remind=");
    let short_prefix = to_chars("-r=");
    let mut remaining: Vec<String> = Vec::new();
    let mut reminder: Option<String> = None;
    let mut i: usize = 0;
    assert(remaining@ + words_from(args@, 0) =~= words_from(args@, 0));
    while i < args.len()
        invariant
            i <= args.len(),
            long_flag@ == "--remind"@,
            short_flag@ == "-r"@,
            long_prefix@ == "--remind="@,
            short_prefix@ == "-r="@,
            words_from(args@, 0) == remaining@ + words_from(args@, i as int),
            match reminder_from(args@, i as int) {
                Some(later) => reminder_from(args@, 0) == Some(later),
                None => match reminder_from(args@, 0) {
                    Some(expr) => reminder matches Some(found) && found@ == expr,
                    None => reminder is None,
                },
            },
        decreases args.len() - i,
    {
        let arg = to_chars(args[i].as_str());
        assert(arg@.skip(0) =~= arg@);
        if same_chars(&arg, &long_flag) || same_chars(&arg, &short_flag) {
            if i + 1 < args.len() {
                reminder = Some(args[i + 1].clone());
                i += 2;
                continue ;
            }
        } else if starts_with_at(&arg, 0, &long_prefix) {
            reminder = Some(text_from(&arg, long_prefix.len()));
            i += 1;
            continue ;
        } else if starts_with_at(&arg, 0, &short_prefix) {
            reminder = Some(text_from(&arg, short_prefix.len()));
            i += 1;
            continue ;
        }
        proof {
            reveal_strlit("--remind");
            reveal_strlit("-r");
            reveal_strlit("--remind=");
            reveal_strlit("-r=");
            assert("--remind"@.len() == 8 && "--remind="@.len() == 9);
            assert("-r"@.len() == 2 && "-r="@.len() == 3);
            assert("--remind"@[2] == 'r' && "-r="@[2] == '=');
            if arg@ == "--remind"@ {
                assert(arg@.take(3)[2] == 'r');
            }
            assert(is_remind_flag(arg@) ==> inline_reminder(arg@) is None);
            assert(remaining@.push(args@[i as int]) + words_from(args@, i + 1) =~= remaining@ + (
            seq![args@[i as int]] + words_from(args@, i + 1)));
        }
        remaining.push(args[i].clone());
        i += 1;
    }
    assert(remaining@ + Seq::<String>::empty() =~= remaining@);
    (remaining, reminder)
}

/// How a notice is meant.
#[derive(Clone, Copy, Debug, PartialEq, Eq, Structural)]
pub enum Tone {
    Success,
    Info,
    Warning,
}

/// One line for the user.
#[derive(Debug, PartialEq, Eq)]
pub struct Notice {
    pub tone: Tone,
    pub text: String,
}

impl Notice {
    /// Whether the notice has the tone `tone` and the words `text`.
    pub open spec fn says(self, tone: Tone, text: Seq<char>) -> bool {
        self.tone == tone && self.text@ == text
    }
}

/// What a command comes to: the changes that the store is asked to make, in
/// order, and the lines for the user once they are made.
#[derive(Debug, PartialEq, Eq)]
pub struct Plan {
    pub changes: Vec<StoreChange>,
    pub notices: Vec<Notice>,
}

impl Plan {
    /// Whether the plan changes nothing and says one thing.
    pub open spec fn only_says(self, tone: Tone, text: Seq<char>) -> bool {
        &&& self.changes@.len() == 0
        &&& self.notices@.len() == 1
        &&& self.notices@[0].says(tone, text)
    }

    /// Whether the plan makes the one change `change` and says one thing.
    pub open spec fn changes_and_says(self, change: StoreChange, tone: Tone, text: Seq<char>) -> bool {
        &&& self.changes@.len() == 1
        &&& self.changes@[0] == change
        &&& self.notices@.len() == 1
        &&& self.notices@[0].says(tone, text)
    }
}

/// `head`, the number `n`, then `middle` and `tail`.
pub open spec fn numbered_text(head: Seq<char>, n: nat, middle: Seq<char>, tail: Seq<char>) -> Seq<
    char,
> {
    head + decimal_digits(n) + middle + tail
}

/// Writes `head`, the number `n`, then `middle` and `tail`.
fn numbered(head: &str, n: usize, middle: &str, tail: &str) -> (r: String)
    ensures
        r@ == numbered_text(head@, n as nat, middle@, tail@),
{
    let mut out = String::from_str(head);
    push_decimal(&mut out, n as u64);
    out.append(middle);
    out.append(tail);
    out
}

/// A plan that changes nothing and says one thing.
fn say(tone: Tone, text: String) -> (plan: Plan)
    ensures
        plan.only_says(tone, text@),
{
    Plan { changes: Vec::new(), notices: vec![Notice { tone, text }] }
}

/// A plan that makes one change and says one thing.
fn change_and_say(change: StoreChange, tone: Tone, text: String) -> (plan: Plan)
    ensures
        plan.changes_and_says(change, tone, text@),
{
    Plan { changes: vec![change], notices: vec![Notice { tone, text }] }
}

/// What `done` comes to for the task `todo` at place `index`.
pub open spec fn is_done_plan(plan: Plan, index: usize, todo: Todo) -> bool {
    if todo.done {
        plan.only_says(
            Tone::Warning,
            numbered_text("Todo #"@, index as nat, " is already done"@, ""@),
        )
    } else {
        plan.changes_and_says(
            StoreChange::MarkDone(todo.id),
            Tone::Success,
            numbered_text("Marked #"@, index as nat, " as done: "@, todo.title@),
        )
    }
}

/// What `undone` comes to for the task `todo` at place `index`.
pub open spec fn is_undone_plan(plan: Plan, index: usize, todo: Todo) -> bool {
    if !todo.done {
        plan.only_says(
            Tone::Warning,
            numbered_text("Todo #"@, index as nat, " is not marked as done"@, ""@),
        )
    } else {
        plan.changes_and_says(
            StoreChange::MarkUndone(todo.id),
            Tone::Success,
            numbered_text("Marked #"@, index as nat, " as pending: "@, todo.title@),
        )
    }
}

/// What `rm` comes to for the task `todo` at place `index`.
pub open spec fn is_remove_plan(plan: Plan, index: usize, todo: Todo) -> bool {
    plan.changes_and_says(
        StoreChange::Delete(todo.id),
        Tone::Success,
        numbered_text("Removed #"@, index as nat, ": "@, todo.title@),
    )
}

/// What picking a task by the first argument comes to: the number is
/// missing, or it picks nothing in the listing, or it picks a task.
#[derive(Debug, PartialEq, Eq)]
pub enum Pick {
    Missing,
    Nothing,
    Task(usize, Todo),
}

/// What the first argument picks in the listing `todos`.
pub open spec fn first_picks(todos: Seq<Todo>, args: Seq<String>) -> Pick {
    if args.len() == 0 {
        Pick::Missing
    } else {
        match picked(todos, args[0]@) {
            Some((index, todo)) => Pick::Task(index, todo),
            None => Pick::Nothing,
        }
    }
}

/// Marks the task with the number `args[0]` in the listing `todos` as done.
/// A task that is done already is left alone, with a warning.
pub fn cmd_done(todos: &Vec<Todo>, args: &Vec<String>) -> (r: Result<Plan, CommandError>)
    ensures
        match first_picks(todos@, args@) {
            Pick::Missing => r matches Err(CommandError::MissingNumber(verb)) && verb
                == Verb::Done,
            Pick::Nothing => r matches Err(e) && is_lookup_failure(e, todos@, args@[0]@),
            Pick::Task(index, todo) => r matches Ok(plan) && is_done_plan(plan, index, todo),
        },
{
    if args.len() == 0 {
        return Err(CommandError::MissingNumber(Verb::Done));
    }
    let (index, todo) = match get_todo_by_index(todos, args[0].as_str()) {
        Ok(found) => found,
        Err(e) => { return Err(e); },
    };
    if todo.done {
        Ok(say(Tone::Warning, numbered("Todo #", index, " is already done", "")))
    } else {
        Ok(
            change_and_say(
                StoreChange::MarkDone(todo.id),
                Tone::Success,
                numbered("Marked #", index, " as done: ", todo.title.as_str()),
            ),
        )
    }
}

/// Marks the task with the number `args[0]` in the listing `todos` as
/// pending. A task that is pending already is left alone, with a warning.
pub fn cmd_undone(todos: &Vec<Todo>, args: &Vec<String>) -> (r: Result<Plan, CommandError>)
    ensures
        match first_picks(todos@, args@) {
            Pick::Missing => r matches Err(CommandError::MissingNumber(verb)) && verb
                == Verb::Undone,
            Pick::Nothing => r matches Err(e) && is_lookup_failure(e, todos@, args@[0]@),
            Pick::Task(index, todo) => r matches Ok(plan) && is_undone_plan(plan, index, todo),
        },
{
    if args.len() == 0 {
        return Err(CommandError::MissingNumber(Verb::Undone));
    }
    let (index, todo) = match get_todo_by_index(todos, args[0].as_str()) {
        Ok(found) => found,
        Err(e) => { return Err(e); },
    };
    if !todo.done {
        Ok(say(Tone::Warning, numbered("Todo #", index, " is not marked as done", "")))
    } else {
        Ok(
            change_and_say(
                StoreChange::MarkUndone(todo.id),
                Tone::Success,
                numbered("Marked #", index, " as pending: ", todo.title.as_str()),
            ),
        )
    }
}

/// Removes the task with the number `args[0]` in the listing `todos`.
pub fn cmd_remove(todos: &Vec<Todo>, args: &Vec<String>) -> (r: Result<Plan, CommandError>)
    ensures
        match first_picks(todos@, args@) {
            Pick::Missing => r matches Err(CommandError::MissingNumber(verb)) && verb
                == Verb::Remove,
            Pick::Nothing => r matches Err(e) && is_lookup_failure(e, todos@, args@[0]@),
            Pick::Task(index, todo) => r matches Ok(plan) && is_remove_plan(plan, index, todo),
        },
{
    if args.len() == 0 {
        return Err(CommandError::MissingNumber(Verb::Remove));
    }
    let (index, todo) = match get_todo_by_index(todos, args[0].as_str()) {
        Ok(found) => found,
        Err(e) => { return Err(e); },
    };
    Ok(
        change_and_say(
            StoreChange::Delete(todo.id),
            Tone::Success,
            numbered("Removed #", index, ": ", todo.title.as_str()),
        ),
    )
}

/// What `list` shows.
#[derive(Debug, PartialEq, Eq)]
pub enum ListView {
    /// Nothing is listed; the user is told how to add a task.
    Empty { hint: String },
    /// The table of tasks.
    Tasks(Table),
}

/// The words for an empty list.
pub open spec fn empty_hint() -> Seq<char> {
    "No todos yet. Add one with: todo add \"your task\""@
}

/// Lays out the listing `todos` for display at the instant `now`: a table,
/// or a hint where nothing is listed.
pub fn cmd_list(todos: &Vec<Todo>, now: i64) -> (r: ListView)
    requires
        lays_out(todos@),
    ensures
        if todos.len() == 0 {
            r matches ListView::Empty { hint } && hint@ == empty_hint()
        } else {
            r matches ListView::Tasks(t) && is_table_of(t, todos@, now as int)
        },
{
    if todos.len() == 0 {
        ListView::Empty { hint: String::from_str("No todos yet. Add one with: todo add \"your task\"") }
    } else {
        ListView::Tasks(table(todos, now))
    }
}

/// What `edit` comes to for the task `todo` at place `index` and the new
/// title `title`, which says something.
pub open spec fn is_edit_plan(plan: Plan, index: usize, todo: Todo, title: Seq<char>) -> bool {
    &&& trimmed(title).len() > 0
    &&& plan.changes@.len() == 1
    &&& plan.changes@[0] matches StoreChange::UpdateTitle(id, new_title)
    &&& id == todo.id
    &&& new_title@ == title
    &&& plan.notices@.len() == 3
    &&& plan.notices@[0].says(Tone::Info, numbered_text("Updated #"@, index as nat, ""@, ""@))
    &&& plan.notices@[1].says(Tone::Info, "  Old: "@ + todo.title@)
    &&& plan.notices@[2].says(Tone::Success, "  New: "@ + title)
}

/// `head` and `tail` in one string.
fn labelled(head: &str, tail: &str) -> (r: String)
    ensures
        r@ == head@ + tail@,
{
    let mut out = String::from_str(head);
    out.append(tail);
    out
}

/// Gives the task with the number `args[0]` in the listing `todos` the
/// title made of the other arguments, joined by spaces and trimmed.
pub fn cmd_edit(todos: &Vec<Todo>, args: &Vec<String>) -> (r: Result<Plan, CommandError>)
    ensures
        if args.len() < 2 {
            r matches Err(CommandError::MissingEditArguments)
        } else {
            match picked(todos@, args@[0]@) {
                None => r matches Err(e) && is_lookup_failure(e, todos@, args@[0]@),
                Some((index, todo)) => {
                    let title = trimmed(join_spaced(args@.skip(1)));
                    if title.len() == 0 {
                        r matches Err(CommandError::EmptyNewTitle)
                    } else {
                        r matches Ok(plan) && is_edit_plan(plan, index, todo, title)
                    }
                },
            }
        },
{
    if args.len() < 2 {
        return Err(CommandError::MissingEditArguments);
    }
    proof {
        trimmed_is_stable(join_spaced(args@.skip(1)));
    }
    let (index, todo) = match get_todo_by_index(todos, args[0].as_str()) {
        Ok(found) => found,
        Err(e) => { return Err(e); },
    };
    let joined = join_words(args, 1);
    let title = trim(joined.as_str());
    if title.as_str().is_empty() {
        return Err(CommandError::EmptyNewTitle);
    }
    let notices = vec![
        Notice { tone: Tone::Info, text: numbered("Updated #", index, "", "") },
        Notice { tone: Tone::Info, text: labelled("  Old: ", todo.title.as_str()) },
        Notice { tone: Tone::Success, text: labelled("  New: ", title.as_str()) },
    ];
    Ok(Plan { changes: vec![StoreChange::UpdateTitle(todo.id, title)], notices })
}

/// What `clear` comes to for the listing `todos`: every done task is
/// removed, in the order of the listing.
pub open spec fn is_clear_plan(plan: Plan, todos: Seq<Todo>) -> bool {
    let completed = todos.filter(|t: Todo| t.done);
    if completed.len() == 0 {
        plan.only_says(Tone::Warning, "No completed todos to clear"@)
    } else {
        &&& plan.changes@.len() == completed.len()
        &&& forall|i: int|
            0 <= i < completed.len() ==> #[trigger] plan.changes@[i] == StoreChange::Delete(
                completed[i].id,
            )
        &&& plan.notices@.len() == 1
        &&& plan.notices@[0].says(
            Tone::Success,
            numbered_text("Cleared "@, completed.len(), " completed todo(s)"@, ""@),
        )
    }
}

/// Removes every done task of the listing `todos`.
pub fn cmd_clear(todos: &Vec<Todo>) -> (plan: Plan)
    ensures
        is_clear_plan(plan, todos@),
{
    let ghost is_done = |t: Todo| t.done;
    let mut changes: Vec<StoreChange> = Vec::new();
    let mut i: usize = 0;
    assert(todos@.take(0) =~= Seq::<Todo>::empty());
    while i < todos.len()
        invariant
            i <= todos.len(),
            is_done == |t: Todo| t.done,
            changes@.len() == todos@.take(i as int).filter(is_done).len(),
            changes@.len() <= i,
            forall|k: int|
                0 <= k < changes@.len() ==> #[trigger] changes@[k] == StoreChange::Delete(
                    todos@.take(i as int).filter(is_done)[k].id,
                ),
        decreases todos.len() - i,
    {
        proof {
            assert(todos@.take(i + 1) =~= todos@.take(i as int).push(todos@[i as int]));
            todos@.take(i as int).lemma_filter_push(todos@[i as int], is_done);
        }
        if todos[i].done {
            changes.push(StoreChange::Delete(todos[i].id));
        }
        i += 1;
    }
    assert(todos@.take(todos.len() as int) =~= todos@);
    if changes.len() == 0 {
        say(Tone::Warning, String::from_str("No completed todos to clear"))
    } else {
        let text = numbered("Cleared ", changes.len(), " completed todo(s)", "");
        Plan { changes, notices: vec![Notice { tone: Tone::Success, text }] }
    }
}

/// The title that the arguments of `add` spell: the words that are no part
/// of a reminder flag, joined by spaces and trimmed.
pub open spec fn title_of(args: Seq<String>) -> Seq<char> {
    trimmed(join_spaced(words_from(args, 0)))
}

/// What `add` is asked for.
#[derive(Debug, PartialEq, Eq)]
pub struct AddRequest {
    /// The title of the new task, trimmed and not empty.
    pub title: String,
    /// The reminder expression, as it was typed.
    pub reminder: Option<String>,
}

/// Reads the arguments of `add`: the title and, where a flag gives one, the
/// reminder expression.
pub fn add_request(args: &Vec<String>) -> (r: Result<AddRequest, CommandError>)
    ensures
        if args.len() == 0 {
            r matches Err(CommandError::MissingTitle)
        } else if title_of(args@).len() == 0 {
            r matches Err(CommandError::EmptyTitle)
        } else {
            &&& r matches Ok(request)
            &&& request.title@ == title_of(args@)
            &&& match reminder_from(args@, 0) {
                Some(expr) => request.reminder matches Some(found) && found@ == expr,
                None => request.reminder is None,
            }
        },
{
    if args.len() == 0 {
        return Err(CommandError::MissingTitle);
    }
    let (words, reminder) = extract_reminder(args.as_slice());
    assert(words@.skip(0) =~= words@);
    let joined = join_words(&words, 0);
    let title = trim(joined.as_str());
    if title.as_str().is_empty() {
        return Err(CommandError::EmptyTitle);
    }
    Ok(AddRequest { title, reminder })
}

/// Whether `todo` is a new task with the title `title` and the reminder
/// `remind_at`: pending, and not notified.
pub open spec fn is_new_task(todo: Todo, title: Seq<char>, remind_at: Option<i64>) -> bool {
    &&& todo.title@ == title
    &&& !todo.done
    &&& todo.remind_at == remind_at
    &&& !todo.notified
}

/// Makes the task that `add` was asked for, given what reading its reminder
/// expression came to.
pub fn new_task(title: String, reading: Option<Result<i64, ReminderError>>) -> (r: Result<
    Todo,
    CommandError,
>)
    ensures
        match reading {
            None => r matches Ok(todo) && is_new_task(todo, title@, None),
            Some(Ok(at)) => r matches Ok(todo) && is_new_task(todo, title@, Some(at)),
            Some(Err(e)) => r matches Err(CommandError::Reminder(cause)) && cause == e,
        },
{
    match reading {
        None => Ok(Todo::new(title)),
        Some(Ok(at)) => Ok(Todo::with_reminder(title, at)),
        Some(Err(e)) => Err(CommandError::Reminder(e)),
    }
}

/// Makes the task for the arguments of `add`: the store is asked to keep
/// what comes back.
///
/// Without a reminder flag the task is settled by the arguments. With one,
/// the clock and the time zone have their say: the task carries the instant
/// that `parse_reminder` read, or the command fails with its error.
pub fn cmd_add(args: &Vec<String>) -> (r: Result<Todo, CommandError>)
    ensures
        if args.len() == 0 {
            r matches Err(CommandError::MissingTitle)
        } else if title_of(args@).len() == 0 {
            r matches Err(CommandError::EmptyTitle)
        } else {
            match reminder_from(args@, 0) {
                None => r matches Ok(todo) && is_new_task(todo, title_of(args@), None),
                Some(expr) => exists|reading: Result<i64, ReminderError>| #[trigger]
                    is_reading_now(reading, normalized(expr)) && match reading {
                        Ok(at) => r matches Ok(todo) && is_new_task(
                            todo,
                            title_of(args@),
                            Some(at),
                        ),
                        Err(e) => r matches Err(CommandError::Reminder(cause)) && cause == e,
                    },
            }
        },
        r matches Ok(todo) ==> todo.has_title(),
{
    proof {
        trimmed_is_stable(join_spaced(words_from(args@, 0)));
    }
    let request = match add_request(args) {
        Ok(request) => request,
        Err(e) => { return Err(e); },
    };
    match request.reminder {
        None => new_task(request.title, None),
        Some(expr) => {
            let reading = parse_reminder(expr.as_str());
            new_task(request.title, Some(reading))
        },
    }
}

/// What `remind` is asked to do with the task it picked.
#[derive(Debug, PartialEq, Eq)]
pub enum RemindRequest {
    /// Tell when the reminder of the task is due.
    Show { index: usize, todo: Todo },
    /// Disarm the reminder.
    Disarm { index: usize, todo: Todo },
    /// Arm the reminder for what `expr` stands for.
    Arm { index: usize, todo: Todo, expr: String },
}

/// Whether `word` asks for the reminder to be disarmed.
pub open spec fn is_clear_word(word: Seq<char>) -> bool {
    word == "clear"@ || word == "off"@ || word == "none"@
}

/// Whether `request` is what the arguments `args` ask of the task `todo` at
/// place `index`: without a second argument the reminder is shown, with
/// `clear`, `off` or `none` it is disarmed, with anything else it is set.
pub open spec fn is_remind_request(
    request: RemindRequest,
    index: usize,
    todo: Todo,
    args: Seq<String>,
) -> bool {
    if args.len() < 2 {
        request == (RemindRequest::Show { index, todo })
    } else if is_clear_word(args[1]@) {
        request == (RemindRequest::Disarm { index, todo })
    } else {
        request matches RemindRequest::Arm { index: i, todo: t, expr } && i == index && t == todo
            && expr@ == args[1]@
    }
}

/// Reads the arguments of `remind` against the listing `todos`.
pub fn remind_request(todos: &Vec<Todo>, args: &Vec<String>) -> (r: Result<
    RemindRequest,
    CommandError,
>)
    ensures
        if args.len() == 0 {
            r matches Err(CommandError::MissingRemindArguments)
        } else {
            match picked(todos@, args@[0]@) {
                None => r matches Err(e) && is_lookup_failure(e, todos@, args@[0]@),
                Some((index, todo)) => r matches Ok(request) && is_remind_request(
                    request,
                    index,
                    todo,
                    args@,
                ),
            }
        },
{
    if args.len() == 0 {
        return Err(CommandError::MissingRemindArguments);
    }
    let (index, todo) = match get_todo_by_index(todos, args[0].as_str()) {
        Ok(found) => found,
        Err(e) => { return Err(e); },
    };
    if args.len() < 2 {
        return Ok(RemindRequest::Show { index, todo });
    }
    let word = to_chars(args[1].as_str());
    if same_chars(&word, &to_chars("clear")) || same_chars(&word, &to_chars("off"))
        || same_chars(&word, &to_chars("none")) {
        Ok(RemindRequest::Disarm { index, todo })
    } else {
        Ok(RemindRequest::Arm { index, todo, expr: args[1].clone() })
    }
}

/// The line that tells when the reminder of the task at place `index` is
/// due, where `label` describes the instant, or that it has none.
pub open spec fn shown_text(index: usize, label: Option<Seq<char>>) -> Seq<char> {
    match label {
        Some(label) => numbered_text("Todo #"@, index as nat, " reminder: "@, label),
        None => numbered_text("Todo #"@, index as nat, " has no reminder"@, ""@),
    }
}

/// The plan that shows the reminder of the task at place `index`.
pub fn show_plan(index: usize, label: Option<String>) -> (plan: Plan)
    ensures
        plan.only_says(
            Tone::Info,
            shown_text(
                index,
                match label {
                    Some(l) => Some(l@),
                    None => None,
                },
            ),
        ),
{
    match label {
        Some(label) => say(Tone::Info, numbered("Todo #", index, " reminder: ", label.as_str())),
        None => say(Tone::Info, numbered("Todo #", index, " has no reminder", "")),
    }
}

/// What disarming comes to for the task `todo` at place `index`: the store
/// is asked to clear the reminder, or, where none is armed, nothing changes
/// and the user is told so.
pub open spec fn is_clear_reminder_plan(plan: Plan, index: usize, todo: Todo) -> bool {
    if todo.remind_at is Some {
        plan.changes_and_says(
            StoreChange::ClearReminder(todo.id),
            Tone::Success,
            numbered_text("Cleared reminder for #"@, index as nat, ": "@, todo.title@),
        )
    } else {
        plan.only_says(Tone::Warning, shown_text(index, None))
    }
}

/// The plan that disarms the reminder of the task `todo` at place `index`.
pub fn clear_plan(index: usize, todo: &Todo) -> (plan: Plan)
    ensures
        is_clear_reminder_plan(plan, index, *todo),
{
    if todo.remind_at.is_some() {
        change_and_say(
            StoreChange::ClearReminder(todo.id),
            Tone::Success,
            numbered("Cleared reminder for #", index, ": ", todo.title.as_str()),
        )
    } else {
        say(Tone::Warning, numbered("Todo #", index, " has no reminder", ""))
    }
}

/// The line that confirms a reminder for the task with the title `title` at
/// place `index`, where `label` describes the instant.
pub open spec fn set_text(index: usize, title: Seq<char>, label: Seq<char>) -> Seq<char> {
    numbered_text("Set reminder for #"@, index as nat, ": "@, title) + " ("@ + label + ")"@
}

/// The plan that arms the reminder of the task `todo` at place `index` for
/// the instant `at`, which `label` describes.
pub fn set_plan(index: usize, todo: &Todo, at: i64, label: &str) -> (plan: Plan)
    ensures
        plan.changes_and_says(
            StoreChange::SetReminder(todo.id, at),
            Tone::Success,
            set_text(index, todo.title@, label@),
        ),
{
    let mut text = numbered("Set reminder for #", index, ": ", todo.title.as_str());
    text.append(" (");
    text.append(label);
    text.append(")");
    change_and_say(StoreChange::SetReminder(todo.id, at), Tone::Success, text)
}

/// Whether `label` describes the instant `at` as seen from some instant.
pub open spec fn describes(label: Seq<char>, at: i64) -> bool {
    exists|now: i64| within_chrono(now) && #[trigger] is_remind_at_label(label, at, now as int)
}

/// Whether `plan` shows the reminder of the task at place `index`, armed
/// for the instant `at`, and changes nothing.
pub open spec fn shows_reminder(plan: Plan, index: usize, at: i64) -> bool {
    exists|label: Seq<char>| #[trigger]
        describes(label, at) && plan.only_says(Tone::Info, shown_text(index, Some(label)))
}

/// Whether `plan` arms the reminder of the task `todo` at place `index` for
/// the instant `at`, and confirms it.
pub open spec fn arms_reminder(plan: Plan, index: usize, todo: Todo, at: i64) -> bool {
    exists|label: Seq<char>| #[trigger]
        describes(label, at) && plan.changes_and_says(
            StoreChange::SetReminder(todo.id, at),
            Tone::Success,
            set_text(index, todo.title@, label),
        )
}

/// Whether `r` is what `remind` comes to for `request`.
///
/// A reminder is shown in words that describe its instant. Disarming is
/// settled by the request. Setting depends on what the expression is read
/// as: an error of the reading is the error of the command, and an instant
/// is what the store is asked to arm, confirmed in words that describe it.
pub open spec fn is_remind_result(r: Result<Plan, CommandError>, request: RemindRequest) -> bool {
    match request {
        RemindRequest::Show { index, todo } => match todo.remind_at {
            Some(at) => r matches Ok(plan) && shows_reminder(plan, index, at),
            None => r matches Ok(plan) && plan.only_says(Tone::Info, shown_text(index, None)),
        },
        RemindRequest::Disarm { index, todo } => r matches Ok(plan) && is_clear_reminder_plan(
            plan,
            index,
            todo,
        ),
        RemindRequest::Arm { index, todo, expr } => exists|reading: Result<i64, ReminderError>|
            #[trigger] is_reading_now(reading, normalized(expr@)) && match reading {
                Ok(at) => r matches Ok(plan) && arms_reminder(plan, index, todo, at),
                Err(e) => r matches Err(CommandError::Reminder(cause)) && cause == e,
            },
    }
}

/// Carries out what `remind` was asked for. The clock and the time zone
/// have their say wherever an instant is read or described.
pub fn remind_plan(request: RemindRequest) -> (r: Result<Plan, CommandError>)
    ensures
        is_remind_result(r, request),
{
    match request {
        RemindRequest::Show { index, todo } => match todo.remind_at {
            Some(at) => {
                let label = format_remind_at(at);
                assert(describes(label@, at));
                Ok(show_plan(index, Some(label)))
            },
            None => Ok(show_plan(index, None)),
        },
        RemindRequest::Disarm { index, todo } => Ok(clear_plan(index, &todo)),
        RemindRequest::Arm { index, todo, expr } => {
            let reading = parse_reminder(expr.as_str());
            match reading {
                Ok(at) => {
                    let label = format_remind_at(at);
                    assert(describes(label@, at));
                    Ok(set_plan(index, &todo, at, label.as_str()))
                },
                Err(e) => Err(CommandError::Reminder(e)),
            }
        },
    }
}

/// Shows, sets or clears the reminder of the task with the number `args[0]`
/// in the listing `todos`.
pub fn cmd_remind(todos: &Vec<Todo>, args: &Vec<String>) -> (r: Result<Plan, CommandError>)
    ensures
        if args.len() == 0 {
            r matches Err(CommandError::MissingRemindArguments)
        } else {
            match picked(todos@, args@[0]@) {
                None => r matches Err(e) && is_lookup_failure(e, todos@, args@[0]@),
                Some((index, todo)) => exists|request: RemindRequest| #[trigger]
                    is_remind_request(request, index, todo, args@) && is_remind_result(
                        r,
                        request,
                    ),
            }
        },
{
    match remind_request(todos, args) {
        Ok(request) => remind_plan(request),
        Err(e) => Err(e),
    }
}

/// What is sent for a task whose reminder is due.
#[derive(Debug, PartialEq, Eq)]
pub struct Delivery {
    /// The task.
    pub todo: Todo,
    /// The script that shows the notification.
    pub script: String,
}

/// The words of every notification.
pub open spec fn notice_words() -> Seq<char> {
    "Time for your todo!"@
}

/// What is to be sent for the tasks `due`: one notification each, in order,
/// with the title of the task as its second line.
pub open spec fn is_delivery_list(deliveries: Seq<Delivery>, due: Seq<Todo>) -> bool {
    &&& deliveries.len() == due.len()
    &&& forall|i: int|
        0 <= i < due.len() ==> (#[trigger] deliveries[i]).todo == due[i] && deliveries[i].script@
            == script_text(due[i].title@, notice_words())
}

/// Prepares the notifications for the tasks `due`, whose reminders are due.
pub fn cmd_notify(due: &Vec<Todo>) -> (deliveries: Vec<Delivery>)
    ensures
        is_delivery_list(deliveries@, due@),
{
    let mut deliveries: Vec<Delivery> = Vec::new();
    let mut i: usize = 0;
    while i < due.len()
        invariant
            i <= due.len(),
            is_delivery_list(deliveries@, due@.take(i as int)),
        decreases due.len() - i,
    {
        let todo = due[i].clone();
        let script = notification_script(todo.title.as_str(), "Time for your todo!");
        deliveries.push(Delivery { todo, script });
        i += 1;
    }
    assert(due@.take(due.len() as int) =~= due@);
    deliveries
}

/// What follows an attempt to deliver the notification for `todo`: after a
/// delivery the task is marked, so that it is not reported again; after a
/// failure nothing changes and nothing is said, and the task stays due.
pub fn after_delivery(todo: &Todo, delivered: bool) -> (plan: Plan)
    ensures
        if delivered {
            plan.changes_and_says(
                StoreChange::MarkNotified(todo.id),
                Tone::Info,
                "Notified: "@ + todo.title@,
            )
        } else {
            plan.changes@.len() == 0 && plan.notices@.len() == 0
        },
{
    if delivered {
        change_and_say(
            StoreChange::MarkNotified(todo.id),
            Tone::Info,
            labelled("Notified: ", todo.title.as_str()),
        )
    } else {
        Plan { changes: Vec::new(), notices: Vec::new() }
    }
}

} // verus!
