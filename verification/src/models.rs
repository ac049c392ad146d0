//! The task record.

use vstd::prelude::*;
use crate::platform::{fresh_id_bytes, store_clock_millis};
use crate::text::trimmed;

verus! {

/// The identifier of a task: twelve bytes that the library hands on and
/// never looks into, except to tell two identifiers apart.
#[derive(Clone, Copy, Debug, PartialEq, Eq)]
pub struct TaskId {
    pub bytes: [u8; 12],
}

impl TaskId {
    /// Whether two identifiers hold the same bytes.
    pub fn same_as(&self, other: &TaskId) -> (r: bool)
        ensures
            r == (self.bytes@ == other.bytes@),
    {
        let mut i: usize = 0;
        while i < 12
            invariant
                i <= 12,
                forall|k: int| 0 <= k < i ==> self.bytes@[k] == other.bytes@[k],
            decreases 12 - i,
        {
            if self.bytes[i] != other.bytes[i] {
                return false;
            }
            i += 1;
        }
        assert(self.bytes@ =~= other.bytes@);
        true
    }
}

/// One task of the list. Instants are milliseconds since the Unix epoch.
#[derive(Debug, PartialEq, Eq)]
pub struct Todo {
    /// Set when the task is made and never changed.
    pub id: TaskId,
    pub title: String,
    pub done: bool,
    /// The instant at which the task was made.
    pub created_at: i64,
    /// The instant of the reminder, if one is armed.
    pub remind_at: Option<i64>,
    /// Whether the reminder has been delivered.
    pub notified: bool,
}

impl Clone for Todo {
    fn clone(&self) -> (r: Self)
        ensures
            r == *self,
    {
        Todo {
            id: self.id,
            title: self.title.clone(),
            done: self.done,
            created_at: self.created_at,
            remind_at: self.remind_at,
            notified: self.notified,
        }
    }
}

impl Todo {
    /// A pending task with the given title, a fresh identifier, the present
    /// instant as its creation time and no reminder.
    pub fn new(title: String) -> (r: Todo)
        ensures
            r.title == title,
            !r.done,
            r.remind_at is None,
            !r.notified,
    {
        Todo {
            id: TaskId { bytes: fresh_id_bytes() },
            title,
            done: false,
            created_at: store_clock_millis(),
            remind_at: None,
            notified: false,
        }
    }

    /// A pending task as `new` makes it, with a reminder armed for the
    /// instant `remind_at`.
    pub fn with_reminder(title: String, remind_at: i64) -> (r: Todo)
        ensures
            r.title == title,
            !r.done,
            r.remind_at == Some(remind_at),
            !r.notified,
    {
        Todo {
            id: TaskId { bytes: fresh_id_bytes() },
            title,
            done: false,
            created_at: store_clock_millis(),
            remind_at: Some(remind_at),
            notified: false,
        }
    }

    /// Whether the title says something: it is not empty, even with the
    /// whitespace at its ends taken away.
    pub open spec fn has_title(self) -> bool {
        trimmed(self.title@).len() > 0
    }

    /// Whether the reminder is due at the instant `now`: the task is
    /// pending, the reminder is armed for `now` or earlier, and it has not
    /// been delivered.
    pub open spec fn is_due(self, now: int) -> bool {
        &&& !self.done
        &&& !self.notified
        &&& self.remind_at matches Some(at)
        &&& at <= now
    }

    /// A reminder armed for a second ago is due as long as the task is
    /// pending and the reminder has not been delivered, and no longer.
    pub proof fn due_a_second_later(self, now: i64)
        requires
            now - 1000 >= i64::MIN,
            self.remind_at == Some((now - 1000) as i64),
        ensures
            !self.done && !self.notified ==> self.is_due(now as int),
            self.notified ==> !self.is_due(now as int),
            self.done ==> !self.is_due(now as int),
    {
    }

    /// Tests whether the reminder is due at the instant `now`.
    pub fn due_at(&self, now: i64) -> (r: bool)
        ensures
            r == self.is_due(now as int),
    {
        match self.remind_at {
            Some(at) => !self.done && !self.notified && at <= now,
            None => false,
        }
    }
}

} // verus!
