//! Todo items and the raw-row decoding used by the relational backend, where
//! the boolean `done` field is persisted as an integer column holding 0 or 1.

use vstd::prelude::*;

verus! {

/// A todo item as the service stores and serves it.
#[derive(Debug)]
pub struct TodoItem {
    pub id: i64,
    pub title: String,
    pub done: bool,
}

impl Clone for TodoItem {
    fn clone(&self) -> (other: Self)
        ensures
            other == *self,
    {
        TodoItem { id: self.id, title: self.title.clone(), done: self.done }
    }
}

/// The errors a store update (mark, unmark, delete) can end in: the id was
/// not present, or the underlying persistence layer failed (the message is
/// the backend's own description of the fault).
#[derive(Debug, PartialEq)]
pub enum UpdateTodoError {
    NotFound,
    SqlError(String),
}

/// A raw row as the relational backend returns it: `done` is an integer
/// column that encodes a boolean as 0 or 1.
#[derive(Debug)]
pub struct TodoItemRow {
    pub id: i64,
    pub title: String,
    pub done: i64,
}

impl Clone for TodoItemRow {
    fn clone(&self) -> (other: Self)
        ensures
            other == *self,
    {
        TodoItemRow { id: self.id, title: self.title.clone(), done: self.done }
    }
}

/// Whether a raw row's `done` column holds a valid boolean encoding.
pub open spec fn row_ok(row: TodoItemRow) -> bool {
    row.done == 0 || row.done == 1
}

/// The item a valid raw row decodes to.
pub open spec fn parse_row_spec(row: TodoItemRow) -> TodoItem {
    TodoItem { id: row.id, title: row.title, done: row.done == 1 }
}

/// Decodes one raw row. A `done` column holding anything but 0 or 1 is a
/// data-corruption condition that callers must rule out beforehand (see
/// `parse_rows` for the checked form).
pub fn parse_row(row: TodoItemRow) -> (item: TodoItem)
    requires
        row_ok(row),
    ensures
        item == parse_row_spec(row),
{
    TodoItem { id: row.id, title: row.title, done: row.done == 1 }
}

/// Raised when a persisted row's `done` column holds a value that is
/// neither 0 nor 1: data corruption or a schema mismatch, which must not
/// be silently repaired. Carries the offending row's id and column value
/// as the diagnostic.
#[derive(Debug, PartialEq)]
pub struct InvariantViolation {
    pub id: i64,
    pub done: i64,
}

/// Every row holds a valid boolean encoding.
pub open spec fn rows_ok(rows: Seq<TodoItemRow>) -> bool {
    forall|i: int| 0 <= i < rows.len() ==> #[trigger] row_ok(rows[i])
}

/// The items a sequence of valid raw rows decodes to.
pub open spec fn parse_rows_spec(rows: Seq<TodoItemRow>) -> Seq<TodoItem> {
    rows.map_values(|row: TodoItemRow| parse_row_spec(row))
}

/// Decodes a whole result set, row by row. Succeeds exactly when every
/// `done` column holds 0 or 1; otherwise reports the first corrupt row.
pub fn parse_rows(rows: Vec<TodoItemRow>) -> (result: Result<Vec<TodoItem>, InvariantViolation>)
    ensures
        match result {
            Ok(items) => rows_ok(rows@) && items@ == parse_rows_spec(rows@),
            Err(violation) => !rows_ok(rows@) && exists|k: int|
                0 <= k < rows@.len() && !#[trigger] row_ok(rows@[k]) && violation.id == rows@[
                    k
                ].id && violation.done == rows@[k].done && (forall|m: int|
                    0 <= m < k ==> #[trigger] row_ok(rows@[m])),
        },
{
    let mut items: Vec<TodoItem> = Vec::new();
    let mut i: usize = 0;
    while i < rows.len()
        invariant
            i <= rows@.len(),
            items@.len() == i,
            forall|k: int| 0 <= k < i ==> #[trigger] row_ok(rows@[k]),
            forall|k: int| 0 <= k < i ==> items@[k] == parse_row_spec(rows@[k]),
        decreases rows@.len() - i,
    {
        let row = rows[i].clone();
        if !(row.done == 0 || row.done == 1) {
            proof {
                assert(!row_ok(rows@[i as int]));
            }
            return Err(InvariantViolation { id: row.id, done: row.done });
        }
        items.push(parse_row(row));
        i = i + 1;
    }
    proof {
        assert(items@ =~= parse_rows_spec(rows@));
    }
    Ok(items)
}

/// The row-returning update and delete statements report the id of the
/// row they touched, or nothing when no row had the requested id. Folds
/// that into the operation's outcome: `NotFound` exactly when no row
/// matched.
pub fn update_outcome(matched: Option<i64>) -> (outcome: Result<(), UpdateTodoError>)
    ensures
        matched is Some ==> outcome == Ok::<(), UpdateTodoError>(()),
        matched is None ==> outcome == Err::<(), UpdateTodoError>(UpdateTodoError::NotFound),
{
    match matched {
        Some(_) => Ok(()),
        None => Err(UpdateTodoError::NotFound),
    }
}

/// Encodes the boolean `done` flag the way the relational backend
/// persists it: 1 for true, 0 for false — so a row written with this
/// encoding always reads back through `parse_row` with the same flag.
pub fn encode_done(done: bool) -> (encoded: i64)
    ensures
        encoded == 0 || encoded == 1,
        (encoded == 1) == done,
{
    if done {
        1
    } else {
        0
    }
}

} // verus!
