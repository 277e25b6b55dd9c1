use todo_backend::db::{
    encode_done, parse_row, parse_rows, InvariantViolation, TodoItemRow, UpdateTodoError,
    update_outcome,
};

#[test]
fn parse_row_decodes_both_flags() {
    let open = parse_row(TodoItemRow {
        id: 7,
        title: "open".to_owned(),
        done: 0,
    });
    assert_eq!(open.id, 7);
    assert_eq!(open.title, "open");
    assert!(!open.done);

    let closed = parse_row(TodoItemRow {
        id: 8,
        title: "closed".to_owned(),
        done: 1,
    });
    assert!(closed.done);
}

#[test]
fn parse_rows_decodes_a_valid_result_set() {
    let rows = vec![
        TodoItemRow {
            id: 1,
            title: "first".to_owned(),
            done: 0,
        },
        TodoItemRow {
            id: 2,
            title: "second".to_owned(),
            done: 1,
        },
    ];
    let items = parse_rows(rows).expect("both rows are valid");
    assert_eq!(items.len(), 2);
    assert_eq!((items[0].id, items[0].done), (1, false));
    assert_eq!((items[1].id, items[1].done), (2, true));
    assert_eq!(items[1].title, "second");
}

#[test]
fn parse_rows_reports_the_first_corrupt_row() {
    let rows = vec![
        TodoItemRow {
            id: 1,
            title: "fine".to_owned(),
            done: 1,
        },
        TodoItemRow {
            id: 2,
            title: "corrupt".to_owned(),
            done: 5,
        },
        TodoItemRow {
            id: 3,
            title: "also corrupt".to_owned(),
            done: -1,
        },
    ];
    let violation = parse_rows(rows).expect_err("a corrupt row must be reported");
    assert_eq!(violation, InvariantViolation { id: 2, done: 5 });
}

#[test]
fn encode_done_round_trips_through_parse_row() {
    for done in [false, true] {
        let encoded = encode_done(done);
        assert!(encoded == 0 || encoded == 1);
        let read_back = parse_row(TodoItemRow {
            id: 1,
            title: "t".to_owned(),
            done: encoded,
        });
        assert_eq!(read_back.done, done);
    }
}

#[test]
fn update_outcome_maps_matched_rows() {
    assert_eq!(update_outcome(Some(4)), Ok(()));
    assert_eq!(update_outcome(None), Err(UpdateTodoError::NotFound));
}
