use todo::db::{apply, data_dir, db_path, due_reminders_at, find_place, get_due_reminders, list_all, StoreChange};
use todo::models::{TaskId, Todo};

const NOW: i64 = 1_700_000_000_000;

fn task(n: u8, title: &str, done: bool, created_at: i64) -> Todo {
    Todo {
        id: TaskId { bytes: [n; 12] },
        title: title.to_string(),
        done,
        created_at,
        remind_at: None,
        notified: false,
    }
}

fn titles(todos: &[Todo]) -> Vec<String> {
    todos.iter().map(|t| t.title.clone()).collect()
}

#[test]
fn pending_before_done_whatever_the_insertion_order() {
    let a = task(1, "A", true, 100);
    let b = task(2, "B", false, 200);
    assert_eq!(list_all(&vec![a.clone(), b.clone()]), vec![b.clone(), a.clone()]);
    assert_eq!(list_all(&vec![b.clone(), a.clone()]), vec![b, a]);
}

#[test]
fn each_group_is_listed_oldest_first() {
    let records = vec![
        task(1, "done late", true, 50),
        task(2, "pending late", false, 40),
        task(3, "done early", true, 10),
        task(4, "pending early", false, 20),
        task(5, "pending middle", false, 30),
    ];
    assert_eq!(
        titles(&list_all(&records)),
        vec!["pending early", "pending middle", "pending late", "done early", "done late"]
    );
}

#[test]
fn tasks_of_one_rank_keep_the_order_in_which_they_were_read() {
    let records = vec![
        task(1, "first", false, 7),
        task(2, "second", false, 7),
        task(3, "zero", false, 6),
        task(4, "third", false, 7),
    ];
    assert_eq!(titles(&list_all(&records)), vec!["zero", "first", "second", "third"]);
}

#[test]
fn listing_keeps_every_record() {
    assert_eq!(list_all(&vec![]), vec![]);
    let one = task(9, "only", true, -5);
    assert_eq!(list_all(&vec![one.clone()]), vec![one]);
    let many: Vec<Todo> = (0..50u8).map(|n| task(n, "t", n % 3 == 0, 1000 - n as i64)).collect();
    let listing = list_all(&many);
    assert_eq!(listing.len(), 50);
    for t in &many {
        assert!(listing.contains(t));
    }
    for pair in listing.windows(2) {
        assert!(!pair[0].done || pair[1].done);
        if pair[0].done == pair[1].done {
            assert!(pair[0].created_at <= pair[1].created_at);
        }
    }
}

#[test]
fn listing_handles_the_ends_of_the_range() {
    let records = vec![task(1, "max", false, i64::MAX), task(2, "min", false, i64::MIN)];
    assert_eq!(titles(&list_all(&records)), vec!["min", "max"]);
}

#[test]
fn a_reminder_a_second_ago_is_due() {
    let mut t = task(1, "T", false, 0);
    t.remind_at = Some(NOW - 1_000);
    assert!(t.due_at(NOW));
    assert_eq!(due_reminders_at(&vec![t.clone()], NOW), vec![t]);
}

#[test]
fn a_notified_reminder_is_not_due() {
    let mut t = task(1, "T", false, 0);
    t.remind_at = Some(NOW - 1_000);
    t.notified = true;
    assert!(!t.due_at(NOW));
    assert_eq!(due_reminders_at(&vec![t], NOW), vec![]);
}

#[test]
fn the_reminder_of_a_done_task_is_not_due() {
    let mut t = task(1, "T", true, 0);
    t.remind_at = Some(NOW - 1_000);
    assert!(!t.due_at(NOW));
    assert_eq!(due_reminders_at(&vec![t], NOW), vec![]);
}

#[test]
fn due_means_now_or_earlier() {
    let mut t = task(1, "T", false, 0);
    assert!(!t.due_at(NOW));
    t.remind_at = Some(NOW);
    assert!(t.due_at(NOW));
    t.remind_at = Some(NOW + 1);
    assert!(!t.due_at(NOW));
    t.remind_at = Some(i64::MIN);
    assert!(t.due_at(i64::MIN));
}

#[test]
fn due_reminders_keep_their_order() {
    let mut a = task(1, "a", false, 1);
    a.remind_at = Some(NOW - 5);
    let b = task(2, "b", false, 2);
    let mut c = task(3, "c", false, 3);
    c.remind_at = Some(NOW + 5);
    let mut d = task(4, "d", false, 4);
    d.remind_at = Some(NOW - 50);
    let todos = vec![a.clone(), b, c, d.clone()];
    assert_eq!(due_reminders_at(&todos, NOW), vec![a, d]);
}

#[test]
fn get_due_reminders_reads_the_clock() {
    let mut past = task(1, "past", false, 1);
    past.remind_at = Some(NOW);
    let mut far = task(2, "far", false, 2);
    far.remind_at = Some(i64::MAX);
    assert_eq!(get_due_reminders(&vec![past.clone(), far]), vec![past]);
}

#[test]
fn changes_reach_the_task_they_name() {
    let mut records = vec![task(1, "a", false, 1), task(2, "b", false, 2)];
    let second = TaskId { bytes: [2; 12] };
    assert!(apply(&mut records, &StoreChange::MarkDone(second)));
    assert!(records[1].done && !records[0].done);
    assert!(apply(&mut records, &StoreChange::MarkUndone(second)));
    assert!(!records[1].done);
    assert!(apply(&mut records, &StoreChange::UpdateTitle(second, "B".to_string())));
    assert_eq!(titles(&records), vec!["a", "B"]);
    assert!(apply(&mut records, &StoreChange::Delete(second)));
    assert_eq!(titles(&records), vec!["a"]);
    assert!(!apply(&mut records, &StoreChange::Delete(second)));
    assert!(!apply(&mut records, &StoreChange::MarkDone(second)));
    assert_eq!(records, vec![task(1, "a", false, 1)]);
    assert!(apply(&mut records, &StoreChange::Insert(task(3, "c", false, 3))));
    assert_eq!(titles(&records), vec!["a", "c"]);
}

#[test]
fn setting_or_clearing_a_reminder_resets_notified() {
    let id = TaskId { bytes: [1; 12] };
    let mut records = vec![task(1, "a", false, 1)];
    records[0].notified = true;
    assert!(apply(&mut records, &StoreChange::SetReminder(id, NOW)));
    assert_eq!(records[0].remind_at, Some(NOW));
    assert!(!records[0].notified);
    assert!(apply(&mut records, &StoreChange::MarkNotified(id)));
    assert!(records[0].notified);
    assert_eq!(records[0].remind_at, Some(NOW));
    assert!(apply(&mut records, &StoreChange::ClearReminder(id)));
    assert_eq!(records[0].remind_at, None);
    assert!(!records[0].notified);
    assert_eq!(records[0].title, "a");
    assert_eq!(records[0].created_at, 1);
}

#[test]
fn the_first_task_with_an_identifier_is_found() {
    let records = vec![task(1, "a", false, 1), task(2, "b", false, 2), task(2, "c", false, 3)];
    assert_eq!(find_place(&records, &TaskId { bytes: [1; 12] }), 0);
    assert_eq!(find_place(&records, &TaskId { bytes: [2; 12] }), 1);
    assert_eq!(find_place(&records, &TaskId { bytes: [3; 12] }), 3);
    let mut nearly = [2u8; 12];
    nearly[11] = 3;
    assert_eq!(find_place(&records, &TaskId { bytes: nearly }), 3);
    assert!(TaskId { bytes: [2; 12] }.same_as(&TaskId { bytes: [2; 12] }));
    assert!(!TaskId { bytes: [2; 12] }.same_as(&TaskId { bytes: nearly }));
}

#[test]
fn the_store_lives_under_the_home_directory() {
    assert_eq!(data_dir("/home/ann"), "/home/ann/.local/share/todo");
    assert_eq!(db_path("/home/ann"), "/home/ann/.local/share/todo/todo.db");
    assert_eq!(db_path(""), "/.local/share/todo/todo.db");
}
