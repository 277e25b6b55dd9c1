use todo_backend::db::UpdateTodoError;
use todo_backend::store::TodoStore;

fn snapshot(store: &TodoStore) -> Vec<(i64, String, bool)> {
    store
        .list()
        .into_iter()
        .map(|item| (item.id, item.title, item.done))
        .collect()
}

#[test]
fn create_assigns_unique_increasing_ids() {
    let mut store = TodoStore::new();
    let mut ids: Vec<i64> = Vec::new();
    for title in ["one", "two", "three", "four"] {
        ids.push(store.create(title.to_owned()));
    }
    for pair in ids.windows(2) {
        assert!(pair[0] < pair[1]);
    }
    // An id stays retired even after its item is deleted.
    assert_eq!(store.delete(ids[3]), Ok(()));
    let fresh = store.create("five".to_owned());
    assert!(fresh > ids[3]);
}

#[test]
fn list_stays_sorted_after_creates_and_deletes() {
    let mut store = TodoStore::new();
    let mut ids: Vec<i64> = Vec::new();
    for title in ["a", "b", "c", "d", "e"] {
        ids.push(store.create(title.to_owned()));
    }
    assert_eq!(store.delete(ids[1]), Ok(()));
    assert_eq!(store.delete(ids[3]), Ok(()));
    store.create("f".to_owned());
    let listed = store.list();
    for pair in listed.windows(2) {
        assert!(pair[0].id < pair[1].id);
    }
    assert_eq!(listed.len(), 4);
}

#[test]
fn mark_twice_leaves_done_true() {
    let mut store = TodoStore::new();
    let id = store.create("laundry".to_owned());
    assert_eq!(store.mark(id), Ok(()));
    let after_first = snapshot(&store);
    assert_eq!(store.mark(id), Ok(()));
    let after_second = snapshot(&store);
    assert_eq!(after_first, after_second);
    assert!(after_second[0].2);
}

#[test]
fn unmark_already_false_leaves_false() {
    let mut store = TodoStore::new();
    let id = store.create("dishes".to_owned());
    let before = snapshot(&store);
    assert_eq!(store.unmark(id), Ok(()));
    let after = snapshot(&store);
    assert_eq!(before, after);
    assert!(!after[0].2);
}

#[test]
fn missing_id_fails_with_not_found_and_changes_nothing() {
    let mut store = TodoStore::new();
    store.create("keep".to_owned());
    let before = snapshot(&store);
    assert_eq!(store.mark(99), Err(UpdateTodoError::NotFound));
    assert_eq!(snapshot(&store), before);
    assert_eq!(store.unmark(99), Err(UpdateTodoError::NotFound));
    assert_eq!(snapshot(&store), before);
    assert_eq!(store.delete(99), Err(UpdateTodoError::NotFound));
    assert_eq!(snapshot(&store), before);
}

#[test]
fn delete_removes_exactly_one_item() {
    let mut store = TodoStore::new();
    let first = store.create("first".to_owned());
    let second = store.create("second".to_owned());
    let third = store.create("third".to_owned());
    assert_eq!(store.delete(second), Ok(()));
    let listed = store.list();
    assert_eq!(listed.len(), 2);
    assert!(listed.iter().all(|item| item.id != second));
    assert!(listed.iter().any(|item| item.id == first));
    assert!(listed.iter().any(|item| item.id == third));
    assert_eq!(store.delete(second), Err(UpdateTodoError::NotFound));
}

#[test]
fn round_trip_scenario() {
    let mut store = TodoStore::new();
    let id = store.create("Buy milk".to_owned());
    let listed = snapshot(&store);
    assert!(listed.contains(&(id, "Buy milk".to_owned(), false)));
    assert_eq!(store.mark(id), Ok(()));
    let listed = snapshot(&store);
    assert!(listed.contains(&(id, "Buy milk".to_owned(), true)));
    assert_eq!(store.delete(id), Ok(()));
    let listed = snapshot(&store);
    assert!(listed.iter().all(|entry| entry.0 != id));
    assert_eq!(store.delete(id), Err(UpdateTodoError::NotFound));
}

#[test]
fn mark_and_delete_on_same_id_agree_in_either_order() {
    let build = || {
        let mut store = TodoStore::new();
        store.create("stay".to_owned());
        let target = store.create("contested".to_owned());
        store.create("also stay".to_owned());
        (store, target)
    };

    // Order one: the mark wins the race, then the delete runs.
    let (mut first_order, target) = build();
    assert_eq!(first_order.mark(target), Ok(()));
    assert_eq!(first_order.delete(target), Ok(()));

    // Order two: the delete wins the race, then the mark fails cleanly.
    let (mut second_order, target) = build();
    assert_eq!(second_order.delete(target), Ok(()));
    assert_eq!(second_order.mark(target), Err(UpdateTodoError::NotFound));

    assert_eq!(snapshot(&first_order), snapshot(&second_order));
    assert!(snapshot(&first_order).iter().all(|entry| entry.0 != target));
}
