//! The in-memory store: the canonical owner of todo-item state. All five
//! operations (`create`, `list`, `mark`, `unmark`, `delete`) are specified
//! against the sequence of stored items, ascending by id.

use vstd::prelude::*;

use crate::db::{TodoItem, UpdateTodoError};

verus! {

/// Ids strictly ascend along the sequence (so they are also unique).
pub open spec fn ids_ascending(s: Seq<TodoItem>) -> bool {
    forall|i: int, j: int|
        0 <= i < j < s.len() ==> #[trigger] s[i].id < #[trigger] s[j].id
}

/// Some position holds an item with the given id.
pub open spec fn contains_id(s: Seq<TodoItem>, id: i64) -> bool {
    exists|i: int| 0 <= i < s.len() && #[trigger] s[i].id == id
}

/// The position of the item with the given id; meaningful when
/// `contains_id` holds and the ids are unique.
pub open spec fn index_of_id(s: Seq<TodoItem>, id: i64) -> int {
    choose|i: int| 0 <= i < s.len() && #[trigger] s[i].id == id
}

/// The same item with its `done` flag replaced.
pub open spec fn with_done(item: TodoItem, done: bool) -> TodoItem {
    TodoItem { id: item.id, title: item.title, done }
}

/// The sequence after a successful mark (`done == true`) or unmark
/// (`done == false`) of the item with the given id.
pub open spec fn set_done_spec(s: Seq<TodoItem>, id: i64, done: bool) -> Seq<TodoItem> {
    s.update(index_of_id(s, id), with_done(s[index_of_id(s, id)], done))
}

/// The sequence after a successful delete of the item with the given id.
pub open spec fn remove_id_spec(s: Seq<TodoItem>, id: i64) -> Seq<TodoItem> {
    s.remove(index_of_id(s, id))
}

/// With strictly ascending ids, an id determines its position.
pub proof fn lemma_id_position_unique(s: Seq<TodoItem>, i: int, j: int)
    requires
        ids_ascending(s),
        0 <= i < s.len(),
        0 <= j < s.len(),
        s[i].id == s[j].id,
    ensures
        i == j,
{
    if i < j {
        assert(s[i].id < s[j].id);
    } else if j < i {
        assert(s[j].id < s[i].id);
    }
}

/// Updating an item in place with one bearing the same id keeps the ids
/// strictly ascending.
proof fn lemma_ascending_update(s: Seq<TodoItem>, j: int, v: TodoItem)
    requires
        ids_ascending(s),
        0 <= j < s.len(),
        v.id == s[j].id,
    ensures
        ids_ascending(s.update(j, v)),
{
    let s1 = s.update(j, v);
    assert forall|p: int, q: int| 0 <= p < q < s1.len() implies #[trigger] s1[p].id
        < #[trigger] s1[q].id by {
        assert(s[p].id < s[q].id);
        assert(s1[p].id == s[p].id);
        assert(s1[q].id == s[q].id);
    }
}

/// Law: setting `done` to the value the item already has leaves the store
/// unchanged; in particular, unmarking an item whose `done` is already
/// false changes nothing.
pub proof fn lemma_set_done_noop(s: Seq<TodoItem>, id: i64, done: bool)
    requires
        ids_ascending(s),
        contains_id(s, id),
        s[index_of_id(s, id)].done == done,
    ensures
        set_done_spec(s, id, done) == s,
{
    let j = index_of_id(s, id);
    assert(0 <= j < s.len() && s[j].id == id);
    assert(with_done(s[j], done) == s[j]);
    assert(set_done_spec(s, id, done) =~= s);
}

/// Law: marking (or unmarking) an existing id twice gives the same store
/// as doing it once, and the id stays present.
pub proof fn lemma_set_done_idempotent(s: Seq<TodoItem>, id: i64, done: bool)
    requires
        ids_ascending(s),
        contains_id(s, id),
    ensures
        contains_id(set_done_spec(s, id, done), id),
        set_done_spec(set_done_spec(s, id, done), id, done) == set_done_spec(s, id, done),
{
    let j = index_of_id(s, id);
    assert(0 <= j < s.len() && s[j].id == id);
    let s1 = set_done_spec(s, id, done);
    lemma_ascending_update(s, j, with_done(s[j], done));
    assert(s1[j].id == id);
    assert(contains_id(s1, id));
    let j1 = index_of_id(s1, id);
    assert(0 <= j1 < s1.len() && s1[j1].id == id);
    lemma_id_position_unique(s1, j, j1);
    assert(s1[j1].done == done);
    lemma_set_done_noop(s1, id, done);
}

/// Law: a successful delete removes exactly the item with the given id:
/// the id is gone, the length drops by one, and every other id is kept.
pub proof fn lemma_delete_removes_exactly(s: Seq<TodoItem>, id: i64)
    requires
        ids_ascending(s),
        contains_id(s, id),
    ensures
        !contains_id(remove_id_spec(s, id), id),
        remove_id_spec(s, id).len() == s.len() - 1,
        forall|other: i64|
            other != id ==> (contains_id(remove_id_spec(s, id), other) <==> contains_id(
                s,
                other,
            )),
{
    let j = index_of_id(s, id);
    assert(0 <= j < s.len() && s[j].id == id);
    let r = remove_id_spec(s, id);
    s.remove_ensures(j);
    if contains_id(r, id) {
        let p = index_of_id(r, id);
        assert(0 <= p < r.len() && r[p].id == id);
        let p0 = if p < j {
            p
        } else {
            p + 1
        };
        assert(r[p] == s[p0]);
        lemma_id_position_unique(s, p0, j);
    }
    assert forall|other: i64| other != id implies (contains_id(r, other) <==> contains_id(
        s,
        other,
    )) by {
        if contains_id(r, other) {
            let p = index_of_id(r, other);
            assert(0 <= p < r.len() && r[p].id == other);
            let p0 = if p < j {
                p
            } else {
                p + 1
            };
            assert(r[p] == s[p0]);
            assert(contains_id(s, other)) by {
                assert(s[p0].id == other);
            }
        }
        if contains_id(s, other) {
            let p0 = index_of_id(s, other);
            assert(0 <= p0 < s.len() && s[p0].id == other);
            assert(p0 != j);
            let p = if p0 < j {
                p0
            } else {
                p0 - 1
            };
            assert(r[p] == s[p0]);
            assert(contains_id(r, other)) by {
                assert(r[p].id == other);
            }
        }
    }
}

/// Law: a mark and a delete of the same existing id give the same final
/// store in either serialized order. Mark-then-delete removes the marked
/// item; delete-then-mark removes it first and the mark then fails with
/// `NotFound`, changing nothing — so both orders end at the same state,
/// never a corrupted intermediate one.
pub proof fn lemma_mark_delete_either_order(s: Seq<TodoItem>, id: i64)
    requires
        ids_ascending(s),
        contains_id(s, id),
    ensures
        contains_id(set_done_spec(s, id, true), id),
        remove_id_spec(set_done_spec(s, id, true), id) == remove_id_spec(s, id),
        !contains_id(remove_id_spec(s, id), id),
{
    let j = index_of_id(s, id);
    assert(0 <= j < s.len() && s[j].id == id);
    let s1 = set_done_spec(s, id, true);
    lemma_ascending_update(s, j, with_done(s[j], true));
    assert(s1[j].id == id);
    assert(contains_id(s1, id));
    let j1 = index_of_id(s1, id);
    assert(0 <= j1 < s1.len() && s1[j1].id == id);
    lemma_id_position_unique(s1, j, j1);
    s.remove_ensures(j);
    s1.remove_ensures(j);
    assert forall|p: int| 0 <= p < s1.remove(j).len() implies s1.remove(j)[p] == s.remove(j)[
        p
    ] by {
        let p0 = if p < j {
            p
        } else {
            p + 1
        };
        assert(s1.remove(j)[p] == s1[p0]);
        assert(s.remove(j)[p] == s[p0]);
        assert(s1[p0] == s[p0]);
    }
    assert(remove_id_spec(s1, id) =~= remove_id_spec(s, id));
    lemma_delete_removes_exactly(s, id);
}

/// The store behind the service: a list of items ascending by id, plus the
/// id the next created item will receive. Ids are assigned by a monotonic
/// counter and never reused within the store's lifetime.
pub struct TodoStore {
    items: Vec<TodoItem>,
    next_id: i64,
}

impl View for TodoStore {
    type V = Seq<TodoItem>;

    closed spec fn view(&self) -> Seq<TodoItem> {
        self.items@
    }
}

impl TodoStore {
    /// The id the next successful `create` will assign.
    pub closed spec fn next_id_spec(&self) -> i64 {
        self.next_id
    }

    /// Well-formed: ids strictly ascend, every stored id is below the next
    /// id to be assigned, and ids start from 1.
    pub closed spec fn wf(&self) -> bool {
        &&& ids_ascending(self.items@)
        &&& forall|i: int|
            0 <= i < self.items@.len() ==> #[trigger] self.items@[i].id < self.next_id
        &&& 1 <= self.next_id
    }

    /// Law: a well-formed store lists its items ascending by id, so after
    /// any sequence of operations `list` comes back sorted.
    pub proof fn lemma_wf_ascending(&self)
        requires
            self.wf(),
        ensures
            ids_ascending(self@),
    {
    }

    /// Law: a well-formed store never holds the id it will assign next.
    /// Since `create` returns the counter and advances it, and no other
    /// operation moves the counter, created ids are fresh and strictly
    /// increase over the store's lifetime — an id is never reused, even
    /// after a delete.
    pub proof fn lemma_next_id_fresh(&self)
        requires
            self.wf(),
        ensures
            !contains_id(self@, self.next_id_spec()),
    {
        if contains_id(self@, self.next_id_spec()) {
            let j = index_of_id(self@, self.next_id_spec());
            assert(0 <= j < self@.len() && self@[j].id == self.next_id_spec());
            assert(self@[j].id < self.next_id);
        }
    }

    /// An empty store; the first created item will get id 1.
    pub fn new() -> (store: Self)
        ensures
            store.wf(),
            store@ == Seq::<TodoItem>::empty(),
            store.next_id_spec() == 1,
    {
        TodoStore { items: Vec::new(), next_id: 1 }
    }

    /// Creates a new item with the given title, not yet done, under a fresh
    /// id one past every id ever assigned before.
    pub fn create(&mut self, title: String) -> (id: i64)
        requires
            old(self).wf(),
            old(self).next_id_spec() < i64::MAX,
            title@.len() != 0,
        ensures
            final(self).wf(),
            id == old(self).next_id_spec(),
            !contains_id(old(self)@, id),
            final(self)@ == old(self)@.push(TodoItem { id, title, done: false }),
            final(self).next_id_spec() == old(self).next_id_spec() + 1,
    {
        let id = self.next_id;
        self.next_id = self.next_id + 1;
        self.items.push(TodoItem { id, title, done: false });
        id
    }

    /// Returns every stored item, ascending by id.
    pub fn list(&self) -> (items: Vec<TodoItem>)
        requires
            self.wf(),
        ensures
            items@ == self@,
            ids_ascending(items@),
    {
        let mut items: Vec<TodoItem> = Vec::new();
        let mut i: usize = 0;
        while i < self.items.len()
            invariant
                i <= self.items@.len(),
                items@.len() == i,
                forall|k: int| 0 <= k < i ==> items@[k] == self.items@[k],
            decreases self.items@.len() - i,
        {
            items.push(self.items[i].clone());
            i = i + 1;
        }
        proof {
            assert(items@ =~= self.items@);
        }
        items
    }

    /// Sets the `done` flag of the item with the given id, or reports
    /// `NotFound` and leaves the store unchanged.
    fn set_done(&mut self, id: i64, done: bool) -> (outcome: Result<(), UpdateTodoError>)
        requires
            old(self).wf(),
        ensures
            final(self).wf(),
            final(self).next_id_spec() == old(self).next_id_spec(),
            contains_id(old(self)@, id) ==> outcome == Ok::<(), UpdateTodoError>(())
                && final(self)@ == set_done_spec(old(self)@, id, done),
            !contains_id(old(self)@, id) ==> outcome == Err::<(), UpdateTodoError>(
                UpdateTodoError::NotFound,
            ) && final(self)@ == old(self)@,
    {
        let n = self.items.len();
        let mut i: usize = 0;
        while i < n
            invariant
                *self == *old(self),
                old(self).wf(),
                n == self.items@.len(),
                i <= n,
                forall|k: int| 0 <= k < i ==> #[trigger] self.items@[k].id != id,
            decreases n - i,
        {
            if self.items[i].id == id {
                proof {
                    assert(contains_id(old(self)@, id)) by {
                        assert(old(self)@[i as int].id == id);
                    }
                    let j = index_of_id(old(self)@, id);
                    assert(0 <= j < old(self)@.len() && old(self)@[j].id == id);
                    lemma_id_position_unique(old(self)@, i as int, j);
                }
                let item = &mut self.items[i];
                item.done = done;
                proof {
                    let s0 = old(self)@;
                    let s1 = self.items@;
                    assert(s1 == s0.update(i as int, with_done(s0[i as int], done)));
                    assert forall|p: int, q: int| 0 <= p < q < s1.len() implies #[trigger] s1[p].id
                        < #[trigger] s1[q].id by {
                        assert(s0[p].id < s0[q].id);
                        assert(s1[p].id == s0[p].id);
                        assert(s1[q].id == s0[q].id);
                    }
                    assert forall|p: int| 0 <= p < s1.len() implies #[trigger] s1[p].id
                        < self.next_id by {
                        assert(s0[p].id < self.next_id);
                        assert(s1[p].id == s0[p].id);
                    }
                }
                return Ok(());
            }
            i = i + 1;
        }
        proof {
            if contains_id(old(self)@, id) {
                let j = index_of_id(old(self)@, id);
                assert(0 <= j < old(self)@.len() && old(self)@[j].id == id);
            }
        }
        Err(UpdateTodoError::NotFound)
    }

    /// Marks the item with the given id as done, or reports `NotFound` and
    /// leaves the store unchanged. Marking an already-done item succeeds
    /// and changes nothing.
    pub fn mark(&mut self, id: i64) -> (outcome: Result<(), UpdateTodoError>)
        requires
            old(self).wf(),
        ensures
            final(self).wf(),
            final(self).next_id_spec() == old(self).next_id_spec(),
            contains_id(old(self)@, id) ==> outcome == Ok::<(), UpdateTodoError>(())
                && final(self)@ == set_done_spec(old(self)@, id, true),
            !contains_id(old(self)@, id) ==> outcome == Err::<(), UpdateTodoError>(
                UpdateTodoError::NotFound,
            ) && final(self)@ == old(self)@,
    {
        self.set_done(id, true)
    }

    /// Marks the item with the given id as not done, or reports `NotFound`
    /// and leaves the store unchanged. Unmarking a never-done item
    /// succeeds and changes nothing.
    pub fn unmark(&mut self, id: i64) -> (outcome: Result<(), UpdateTodoError>)
        requires
            old(self).wf(),
        ensures
            final(self).wf(),
            final(self).next_id_spec() == old(self).next_id_spec(),
            contains_id(old(self)@, id) ==> outcome == Ok::<(), UpdateTodoError>(())
                && final(self)@ == set_done_spec(old(self)@, id, false),
            !contains_id(old(self)@, id) ==> outcome == Err::<(), UpdateTodoError>(
                UpdateTodoError::NotFound,
            ) && final(self)@ == old(self)@,
    {
        self.set_done(id, false)
    }

    /// Deletes the item with the given id, or reports `NotFound` and
    /// leaves the store unchanged. Deletion is permanent: the id is never
    /// handed out again.
    pub fn delete(&mut self, id: i64) -> (outcome: Result<(), UpdateTodoError>)
        requires
            old(self).wf(),
        ensures
            final(self).wf(),
            final(self).next_id_spec() == old(self).next_id_spec(),
            contains_id(old(self)@, id) ==> outcome == Ok::<(), UpdateTodoError>(())
                && final(self)@ == remove_id_spec(old(self)@, id),
            !contains_id(old(self)@, id) ==> outcome == Err::<(), UpdateTodoError>(
                UpdateTodoError::NotFound,
            ) && final(self)@ == old(self)@,
    {
        let n = self.items.len();
        let mut i: usize = 0;
        while i < n
            invariant
                *self == *old(self),
                old(self).wf(),
                n == self.items@.len(),
                i <= n,
                forall|k: int| 0 <= k < i ==> #[trigger] self.items@[k].id != id,
            decreases n - i,
        {
            if self.items[i].id == id {
                proof {
                    assert(contains_id(old(self)@, id)) by {
                        assert(old(self)@[i as int].id == id);
                    }
                    let j = index_of_id(old(self)@, id);
                    assert(0 <= j < old(self)@.len() && old(self)@[j].id == id);
                    lemma_id_position_unique(old(self)@, i as int, j);
                }
                self.items.remove(i);
                proof {
                    let s0 = old(self)@;
                    let s1 = self.items@;
                    s0.remove_ensures(i as int);
                    assert forall|p: int, q: int| 0 <= p < q < s1.len() implies #[trigger] s1[p].id
                        < #[trigger] s1[q].id by {
                        let p0 = if p < i { p } else { p + 1 };
                        let q0 = if q < i { q } else { q + 1 };
                        assert(s1[p] == s0[p0]);
                        assert(s1[q] == s0[q0]);
                        assert(s0[p0].id < s0[q0].id);
                    }
                    assert forall|p: int| 0 <= p < s1.len() implies #[trigger] s1[p].id
                        < self.next_id by {
                        let p0 = if p < i { p } else { p + 1 };
                        assert(s1[p] == s0[p0]);
                        assert(s0[p0].id < self.next_id);
                    }
                }
                return Ok(());
            }
            i = i + 1;
        }
        proof {
            if contains_id(old(self)@, id) {
                let j = index_of_id(old(self)@, id);
                assert(0 <= j < old(self)@.len() && old(self)@[j].id == id);
            }
        }
        Err(UpdateTodoError::NotFound)
    }
}

} // verus!
