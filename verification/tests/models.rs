use todo::models::Todo;

#[test]
fn a_new_task_is_pending_and_has_no_reminder() {
    let t = Todo::new("X".to_string());
    assert_eq!(t.title, "X");
    assert!(!t.done);
    assert_eq!(t.remind_at, None);
    assert!(!t.notified);
}

#[test]
fn a_new_task_with_a_reminder_is_armed() {
    let t = Todo::with_reminder("X".to_string(), 42);
    assert_eq!(t.title, "X");
    assert!(!t.done);
    assert_eq!(t.remind_at, Some(42));
    assert!(!t.notified);
}

#[test]
fn new_tasks_get_identifiers_of_their_own() {
    let a = Todo::new("a".to_string());
    let b = Todo::new("a".to_string());
    let c = Todo::with_reminder("a".to_string(), 1);
    assert_ne!(a.id, b.id);
    assert_ne!(b.id, c.id);
    assert_ne!(a.id.bytes, [0u8; 12]);
}

#[test]
fn new_tasks_are_made_now() {
    let before = chrono::Utc::now().timestamp_millis();
    let t = Todo::new("a".to_string());
    let after = chrono::Utc::now().timestamp_millis();
    assert!(before - 1 <= t.created_at && t.created_at <= after + 1);
    assert!(t.created_at > 1_600_000_000_000);
}

#[test]
fn a_clone_is_equal() {
    let t = Todo::with_reminder("copy me".to_string(), 7);
    let c = t.clone();
    assert_eq!(t, c);
}
