//! What the store answers and what it is asked: the order in which tasks are
//! listed, the reminders that are due, and the changes by which tasks are
//! kept, updated and forgotten. The records themselves are kept by the
//! caller, in a file; the functions here take them as they were read, and
//! `apply` carries a change out on records in memory.

use vstd::prelude::*;
use crate::models::{TaskId, Todo};
use crate::platform::store_clock_millis;

verus! {

/// Whether `a` and `b` stand in one group at one place: both pending or both
/// done, and made at the same instant.
pub open spec fn same_rank(a: Todo, b: Todo) -> bool {
    a.done == b.done && a.created_at == b.created_at
}

/// Whether `a` is listed before `b` whatever the order in which they were
/// read: a pending task before a done one, and within a group the one made
/// earlier.
pub open spec fn ranks_before(a: Todo, b: Todo) -> bool {
    if a.done == b.done {
        a.created_at < b.created_at
    } else {
        !a.done
    }
}

/// Tests whether `a` is listed before `b` whatever the order in which they
/// were read.
pub fn goes_before(a: &Todo, b: &Todo) -> (r: bool)
    ensures
        r == ranks_before(*a, *b),
{
    if a.done == b.done {
        a.created_at < b.created_at
    } else {
        !a.done
    }
}

/// Whether `from[i]` is `k` for some place `i`.
pub open spec fn is_listed(from: Seq<int>, k: int) -> bool {
    exists|i: int| 0 <= i < from.len() && from[i] == k
}

/// Whether `listing` holds the tasks of `records`, each of them and each
/// once, where `from[i]` is the place in `records` of the task at place `i`
/// of `listing`; pending tasks stand before done ones, within a group earlier
/// tasks stand before later ones, and tasks of one rank keep the order in
/// which they were read.
pub open spec fn is_arrangement(listing: Seq<Todo>, records: Seq<Todo>, from: Seq<int>) -> bool {
    &&& listing.len() == records.len()
    &&& from.len() == records.len()
    &&& forall|i: int|
        0 <= i < listing.len() ==> 0 <= #[trigger] from[i] < records.len() && listing[i]
            == records[from[i]]
    &&& forall|k: int| 0 <= k < records.len() ==> #[trigger] is_listed(from, k)
    &&& forall|i: int, j: int|
        0 <= i < j < listing.len() ==> #[trigger] from[i] != #[trigger] from[j]
    &&& forall|i: int, j: int|
        0 <= i < j < listing.len() ==> ranks_before(#[trigger] listing[i], #[trigger] listing[j])
            || (same_rank(listing[i], listing[j]) && from[i] < from[j])
}

/// Whether `listing` is `records` in the order of display.
pub open spec fn is_listing_of(listing: Seq<Todo>, records: Seq<Todo>) -> bool {
    exists|from: Seq<int>| is_arrangement(listing, records, from)
}

/// Putting the next record behind the tasks that do not rank after it keeps
/// an arrangement one.
proof fn arrangement_grows(
    before: Seq<Todo>,
    from: Seq<int>,
    records: Seq<Todo>,
    k: int,
    at: int,
)
    requires
        0 <= k < records.len(),
        is_arrangement(before, records.take(k), from),
        0 <= at <= before.len(),
        forall|i: int| 0 <= i < at ==> !ranks_before(records[k], #[trigger] before[i]),
        at < before.len() ==> ranks_before(records[k], before[at]),
    ensures
        is_arrangement(before.insert(at, records[k]), records.take(k + 1), from.insert(at, k)),
{
    let record = records[k];
    let after = before.insert(at, record);
    let after_from = from.insert(at, k);
    let taken = records.take(k + 1);
    assert forall|i: int| 0 <= i < after.len() implies 0 <= #[trigger] after_from[i]
        < taken.len() && after[i] == taken[after_from[i]] by {
        if i < at {
            assert(after_from[i] == from[i]);
            assert(after[i] == before[i]);
        } else if i > at {
            assert(after_from[i] == from[i - 1]);
            assert(after[i] == before[i - 1]);
        }
    }
    assert forall|n: int| 0 <= n < taken.len() implies #[trigger] is_listed(after_from, n) by {
        if n < k {
            assert(is_listed(from, n));
            let i = choose|i: int| 0 <= i < from.len() && from[i] == n;
            let moved = if i < at { i } else { i + 1 };
            assert(after_from[moved] == n);
        } else {
            assert(after_from[at] == n);
        }
    }
    assert forall|i: int, j: int| 0 <= i < j < after.len() implies #[trigger] after_from[i]
        != #[trigger] after_from[j] by {
        let pi = if i < at { i } else { i - 1 };
        let pj = if j < at { j } else { j - 1 };
        if i != at {
            assert(after_from[i] == from[pi]);
        }
        if j != at {
            assert(after_from[j] == from[pj]);
        }
    }
    assert forall|i: int, j: int| 0 <= i < j < after.len() implies ranks_before(
        #[trigger] after[i],
        #[trigger] after[j],
    ) || (same_rank(after[i], after[j]) && after_from[i] < after_from[j]) by {
        let pi = if i < at { i } else { i - 1 };
        let pj = if j < at { j } else { j - 1 };
        if i != at && j != at {
            assert(after[i] == before[pi] && after_from[i] == from[pi]);
            assert(after[j] == before[pj] && after_from[j] == from[pj]);
        } else if j == at {
            assert(after[i] == before[pi] && after_from[i] == from[pi]);
            assert(!ranks_before(record, before[pi]));
        } else {
            assert(after[j] == before[pj] && after_from[j] == from[pj]);
            assert(ranks_before(record, before[at]));
            if pj > at {
                assert(ranks_before(before[at], before[pj]) || same_rank(before[at], before[pj]));
            }
        }
    }
}

/// The tasks of `records` in the order of display: pending tasks first, then
/// done ones, each group by creation time, earliest first; tasks that agree
/// in both keep the order in which they were read.
pub fn list_all(records: &Vec<Todo>) -> (listing: Vec<Todo>)
    ensures
        is_listing_of(listing@, records@),
{
    let mut listing: Vec<Todo> = Vec::new();
    let ghost mut from: Seq<int> = Seq::empty();
    let mut k: usize = 0;
    while k < records.len()
        invariant
            k <= records.len(),
            is_arrangement(listing@, records@.take(k as int), from),
        decreases records.len() - k,
    {
        let record = records[k].clone();
        let mut at: usize = 0;
        while at < listing.len() && !goes_before(&record, &listing[at])
            invariant
                at <= listing.len(),
                forall|i: int| 0 <= i < at ==> !ranks_before(record, #[trigger] listing@[i]),
            decreases listing.len() - at,
        {
            at += 1;
        }
        let ghost before = listing@;
        listing.insert(at, record);
        proof {
            arrangement_grows(before, from, records@, k as int, at as int);
            from = from.insert(at as int, k as int);
        }
        k += 1;
    }
    assert(records@.take(records.len() as int) =~= records@);
    listing
}

/// In a listing no done task stands before a pending one, and within the
/// pending tasks, as within the done ones, none stands before one that was
/// made earlier.
pub proof fn listing_is_ordered(listing: Seq<Todo>, records: Seq<Todo>, i: int, j: int)
    requires
        is_listing_of(listing, records),
        0 <= i < j < listing.len(),
    ensures
        listing[i].done ==> listing[j].done,
        listing[i].done == listing[j].done ==> listing[i].created_at <= listing[j].created_at,
{
    let from = choose|from: Seq<int>| is_arrangement(listing, records, from);
    assert(ranks_before(listing[i], listing[j]) || same_rank(listing[i], listing[j]));
}

/// A listing holds every task of the records, and nothing else.
pub proof fn listing_holds_the_records(listing: Seq<Todo>, records: Seq<Todo>)
    requires
        is_listing_of(listing, records),
    ensures
        listing.len() == records.len(),
        forall|k: int| 0 <= k < records.len() ==> listing.contains(#[trigger] records[k]),
        forall|i: int| 0 <= i < listing.len() ==> records.contains(#[trigger] listing[i]),
{
    let from = choose|from: Seq<int>| is_arrangement(listing, records, from);
    assert forall|k: int| 0 <= k < records.len() implies listing.contains(
        #[trigger] records[k],
    ) by {
        assert(is_listed(from, k));
        let i = choose|i: int| 0 <= i < from.len() && from[i] == k;
        assert(listing[i] == records[k]);
    }
    assert forall|i: int| 0 <= i < listing.len() implies records.contains(
        #[trigger] listing[i],
    ) by {
        assert(records[from[i]] == listing[i]);
    }
}

/// Whether the record at place `x` goes before the record at place `y` in
/// the listing of `records`.
spec fn precedes(records: Seq<Todo>, x: int, y: int) -> bool {
    ranks_before(records[x], records[y]) || (same_rank(records[x], records[y]) && x < y)
}

/// Two arrangements of the same records put the same record in each place.
proof fn same_place(
    records: Seq<Todo>,
    a: Seq<Todo>,
    from_a: Seq<int>,
    b: Seq<Todo>,
    from_b: Seq<int>,
    p: int,
)
    requires
        is_arrangement(a, records, from_a),
        is_arrangement(b, records, from_b),
        0 <= p < records.len(),
    ensures
        from_a[p] == from_b[p],
    decreases p,
{
    assert forall|q: int| 0 <= q < p implies from_a[q] == from_b[q] by {
        same_place(records, a, from_a, b, from_b, q);
    }
    let x = from_a[p];
    let y = from_b[p];
    if x != y {
        assert(is_listed(from_b, x));
        let q = choose|q: int| 0 <= q < from_b.len() && from_b[q] == x;
        if q < p {
            assert(from_a[q] == from_a[p]);
        }
        assert(precedes(records, from_b[p], from_b[q])) by {
            assert(b[p] == records[from_b[p]] && b[q] == records[from_b[q]]);
        }
        assert(is_listed(from_a, y));
        let r = choose|r: int| 0 <= r < from_a.len() && from_a[r] == y;
        if r < p {
            assert(from_b[r] == from_b[p]);
        }
        assert(precedes(records, from_a[p], from_a[r])) by {
            assert(a[p] == records[from_a[p]] && a[r] == records[from_a[r]]);
        }
        assert(false);
    }
}

/// The records have one listing only: the order of display leaves no choice.
pub proof fn listing_is_unique(a: Seq<Todo>, b: Seq<Todo>, records: Seq<Todo>)
    requires
        is_listing_of(a, records),
        is_listing_of(b, records),
    ensures
        a == b,
{
    let from_a = choose|from: Seq<int>| is_arrangement(a, records, from);
    let from_b = choose|from: Seq<int>| is_arrangement(b, records, from);
    assert forall|p: int| 0 <= p < a.len() implies a[p] == b[p] by {
        same_place(records, a, from_a, b, from_b, p);
    }
    assert(a =~= b);
}

/// A done task and a pending one are listed with the pending one first,
/// whichever was made or read first.
pub proof fn pending_is_listed_first(done: Todo, pending: Todo, listing: Seq<Todo>)
    requires
        done.done,
        !pending.done,
        is_listing_of(listing, seq![done, pending]) || is_listing_of(
            listing,
            seq![pending, done],
        ),
    ensures
        listing == seq![pending, done],
{
    let records = if is_listing_of(listing, seq![done, pending]) {
        seq![done, pending]
    } else {
        seq![pending, done]
    };
    let from = choose|from: Seq<int>| is_arrangement(listing, records, from);
    assert(listing.len() == 2);
    assert(listing[0] == records[from[0]]);
    assert(listing[1] == records[from[1]]);
    assert(from[0] != from[1]);
    assert(ranks_before(listing[0], listing[1]) || same_rank(listing[0], listing[1]));
    assert(listing =~= seq![pending, done]);
}

/// The tasks of `todos` whose reminder is due at the instant `now`, in the
/// order in which they stand in `todos`.
pub fn due_reminders_at(todos: &Vec<Todo>, now: i64) -> (due: Vec<Todo>)
    ensures
        due@ == todos@.filter(|t: Todo| t.is_due(now as int)),
{
    let ghost is_due = |t: Todo| t.is_due(now as int);
    let mut due: Vec<Todo> = Vec::new();
    let mut i: usize = 0;
    assert(todos@.take(0).filter(is_due) =~= Seq::<Todo>::empty());
    while i < todos.len()
        invariant
            i <= todos.len(),
            is_due == |t: Todo| t.is_due(now as int),
            due@ == todos@.take(i as int).filter(is_due),
        decreases todos.len() - i,
    {
        proof {
            assert(todos@.take(i + 1) =~= todos@.take(i as int).push(todos@[i as int]));
            todos@.take(i as int).lemma_filter_push(todos@[i as int], is_due);
        }
        if todos[i].due_at(now) {
            due.push(todos[i].clone());
        }
        i += 1;
    }
    assert(todos@.take(todos.len() as int) =~= todos@);
    due
}

/// The tasks of `todos` whose reminder is due at the present instant, as the
/// store's clock gives it.
pub fn get_due_reminders(todos: &Vec<Todo>) -> (due: Vec<Todo>)
    ensures
        exists|now: i64| due@ == #[trigger] due_among(todos@, now as int),
{
    let now = store_clock_millis();
    let due = due_reminders_at(todos, now);
    assert(due@ == due_among(todos@, now as int));
    due
}

/// The tasks of `todos` whose reminder is due at the instant `now`.
pub open spec fn due_among(todos: Seq<Todo>, now: int) -> Seq<Todo> {
    todos.filter(|t: Todo| t.is_due(now))
}

/// One change that the store is asked to make. All but `Insert` name the
/// task by its identifier.
#[derive(Debug, PartialEq, Eq)]
pub enum StoreChange {
    /// Keep a new task.
    Insert(Todo),
    /// Set `done`.
    MarkDone(TaskId),
    /// Clear `done`.
    MarkUndone(TaskId),
    /// Replace the title.
    UpdateTitle(TaskId, String),
    /// Arm the reminder for an instant; it counts as not delivered.
    SetReminder(TaskId, i64),
    /// Disarm the reminder; it counts as not delivered.
    ClearReminder(TaskId),
    /// Forget the task.
    Delete(TaskId),
    /// Note that the reminder has been delivered.
    MarkNotified(TaskId),
}

impl StoreChange {
    /// The identifier of the task that the change is about; for `Insert`,
    /// that of the new task.
    pub open spec fn target(self) -> TaskId {
        match self {
            StoreChange::Insert(todo) => todo.id,
            StoreChange::MarkDone(id) => id,
            StoreChange::MarkUndone(id) => id,
            StoreChange::UpdateTitle(id, _) => id,
            StoreChange::SetReminder(id, _) => id,
            StoreChange::ClearReminder(id) => id,
            StoreChange::Delete(id) => id,
            StoreChange::MarkNotified(id) => id,
        }
    }

    /// The identifier of the task that the change is about.
    pub fn task_id(&self) -> (id: TaskId)
        ensures
            id == self.target(),
    {
        match self {
            StoreChange::Insert(todo) => todo.id,
            StoreChange::MarkDone(id) => *id,
            StoreChange::MarkUndone(id) => *id,
            StoreChange::UpdateTitle(id, _) => *id,
            StoreChange::SetReminder(id, _) => *id,
            StoreChange::ClearReminder(id) => *id,
            StoreChange::Delete(id) => *id,
            StoreChange::MarkNotified(id) => *id,
        }
    }

    /// Whether `after` is the task `todo` once the change has been made, for
    /// a change that updates a task in place. The identifier and the
    /// creation time never change, and a reminder that is set or cleared
    /// counts as not delivered. The title is compared by its characters.
    pub open spec fn updates(self, todo: Todo, after: Todo) -> bool {
        &&& after.id == todo.id
        &&& after.created_at == todo.created_at
        &&& after.title@ == match self {
            StoreChange::UpdateTitle(_, title) => title@,
            _ => todo.title@,
        }
        &&& after.done == match self {
            StoreChange::MarkDone(_) => true,
            StoreChange::MarkUndone(_) => false,
            _ => todo.done,
        }
        &&& after.remind_at == match self {
            StoreChange::SetReminder(_, at) => Some(at),
            StoreChange::ClearReminder(_) => None,
            _ => todo.remind_at,
        }
        &&& after.notified == match self {
            StoreChange::SetReminder(_, _) => false,
            StoreChange::ClearReminder(_) => false,
            StoreChange::MarkNotified(_) => true,
            _ => todo.notified,
        }
    }
}

/// The fields that an update writes; `None` leaves a field as it is. The
/// identifier and the creation time are never written.
#[derive(Debug, PartialEq, Eq)]
pub struct FieldUpdate {
    pub title: Option<String>,
    pub done: Option<bool>,
    /// `Some(None)` disarms the reminder.
    pub remind_at: Option<Option<i64>>,
    pub notified: Option<bool>,
}

impl FieldUpdate {
    /// Whether `after` is the task `todo` with the fields written. The title
    /// is compared by its characters.
    pub open spec fn turns(self, todo: Todo, after: Todo) -> bool {
        &&& after.id == todo.id
        &&& after.created_at == todo.created_at
        &&& after.title@ == match self.title {
            Some(title) => title@,
            None => todo.title@,
        }
        &&& after.done == match self.done {
            Some(done) => done,
            None => todo.done,
        }
        &&& after.remind_at == match self.remind_at {
            Some(remind_at) => remind_at,
            None => todo.remind_at,
        }
        &&& after.notified == match self.notified {
            Some(notified) => notified,
            None => todo.notified,
        }
    }

    /// The task `todo` with the fields written.
    pub fn write_to(&self, todo: &Todo) -> (after: Todo)
        ensures
            self.turns(*todo, after),
    {
        Todo {
            id: todo.id,
            title: match &self.title {
                Some(title) => title.clone(),
                None => todo.title.clone(),
            },
            done: match self.done {
                Some(done) => done,
                None => todo.done,
            },
            created_at: todo.created_at,
            remind_at: match self.remind_at {
                Some(remind_at) => remind_at,
                None => todo.remind_at,
            },
            notified: match self.notified {
                Some(notified) => notified,
                None => todo.notified,
            },
        }
    }
}

impl StoreChange {
    /// Whether the change updates a task in place: all do but `Insert` and
    /// `Delete`.
    pub open spec fn is_update(self) -> bool {
        !(self is Insert) && !(self is Delete)
    }

    /// The fields that the change writes, for a change that updates a task
    /// in place: they turn a task into what `updates` says. Setting or
    /// clearing a reminder also writes that it has not been delivered.
    pub fn fields(&self) -> (r: Option<FieldUpdate>)
        ensures
            r is Some <==> self.is_update(),
            r matches Some(f) ==> forall|todo: Todo, after: Todo|
                #[trigger] f.turns(todo, after) == self.updates(todo, after),
    {
        let nothing = FieldUpdate { title: None, done: None, remind_at: None, notified: None };
        match self {
            StoreChange::Insert(_) => None,
            StoreChange::Delete(_) => None,
            StoreChange::MarkDone(_) => Some(FieldUpdate { done: Some(true), ..nothing }),
            StoreChange::MarkUndone(_) => Some(FieldUpdate { done: Some(false), ..nothing }),
            StoreChange::UpdateTitle(_, title) => Some(
                FieldUpdate { title: Some(title.clone()), ..nothing },
            ),
            StoreChange::SetReminder(_, at) => Some(
                FieldUpdate { remind_at: Some(Some(*at)), notified: Some(false), ..nothing },
            ),
            StoreChange::ClearReminder(_) => Some(
                FieldUpdate { remind_at: Some(None), notified: Some(false), ..nothing },
            ),
            StoreChange::MarkNotified(_) => Some(FieldUpdate { notified: Some(true), ..nothing }),
        }
    }
}

/// The place of the first task of `records` with the identifier `id`, or the
/// length of `records` where there is none.
pub open spec fn place_of(records: Seq<Todo>, id: TaskId) -> int
    decreases records.len(),
{
    if records.len() == 0 {
        0
    } else if records.first().id.bytes@ == id.bytes@ {
        0
    } else {
        1 + place_of(records.drop_first(), id)
    }
}

/// Finds the place of the first task of `records` with the identifier `id`.
pub fn find_place(records: &Vec<Todo>, id: &TaskId) -> (at: usize)
    ensures
        at == place_of(records@, *id),
        at <= records.len(),
        at < records.len() ==> records@[at as int].id.bytes@ == id.bytes@,
        forall|k: int| 0 <= k < at ==> (#[trigger] records@[k]).id.bytes@ != id.bytes@,
{
    let mut at: usize = 0;
    assert(records@.skip(0) =~= records@);
    while at < records.len()
        invariant
            at <= records.len(),
            place_of(records@, *id) == at + place_of(records@.skip(at as int), *id),
            forall|k: int| 0 <= k < at ==> (#[trigger] records@[k]).id.bytes@ != id.bytes@,
        decreases records.len() - at,
    {
        if records[at].id.same_as(id) {
            return at;
        }
        assert(records@.skip(at as int).drop_first() =~= records@.skip(at + 1));
        at += 1;
    }
    at
}

/// Carries out `change` on the tasks in `records`: a new task goes to the
/// end, and any other change reaches the first task with the identifier it
/// names. The result tells whether the change found its task; where it did
/// not, nothing changes. A store is held to the same.
pub fn apply(records: &mut Vec<Todo>, change: &StoreChange) -> (found: bool)
    ensures
        match *change {
            StoreChange::Insert(todo) => found && final(records)@ == old(records)@.push(todo),
            StoreChange::Delete(id) => {
                let at = place_of(old(records)@, id);
                if at < old(records).len() {
                    found && final(records)@ == old(records)@.remove(at)
                } else {
                    !found && final(records)@ == old(records)@
                }
            },
            _ => {
                let at = place_of(old(records)@, change.target());
                if at < old(records).len() {
                    &&& found
                    &&& final(records)@.len() == old(records).len()
                    &&& change.updates(old(records)@[at], final(records)@[at])
                    &&& forall|k: int|
                        0 <= k < old(records).len() && k != at ==> final(records)@[k] == old(
                            records,
                        )@[k]
                } else {
                    !found && final(records)@ == old(records)@
                }
            },
        },
{
    if let StoreChange::Insert(todo) = change {
        records.push(todo.clone());
        return true;
    }
    let id = change.task_id();
    let at = find_place(records, &id);
    if at >= records.len() {
        return false;
    }
    if let StoreChange::Delete(_) = change {
        let _ = records.remove(at);
        return true;
    }
    let after = match change.fields() {
        Some(fields) => fields.write_to(&records[at]),
        None => records[at].clone(),
    };
    records.set(at, after);
    true
}

/// The directory of the store under the user's home directory.
pub open spec fn data_dir_under(home: Seq<char>) -> Seq<char> {
    home + "/.local/share/todo"@
}

/// The directory in which the store is kept, under the home directory `home`.
pub fn data_dir(home: &str) -> (r: String)
    ensures
        r@ == data_dir_under(home@),
{
    let mut out = String::from_str(home);
    out.append("/.local/share/todo");
    out
}

/// The file in which the store is kept, under the home directory `home`.
pub fn db_path(home: &str) -> (r: String)
    ensures
        r@ == data_dir_under(home@) + "/todo.db"@,
{
    let mut out = data_dir(home);
    out.append("/todo.db");
    out
}

} // verus!
