use todo_backend::db::UpdateTodoError;
use todo_backend::responses::{Answer, Envelope, NoError, TodoItemNotFound, update_reply};

#[test]
fn success_wraps_payload_under_status_200() {
    let answer: Answer<Vec<i64>, NoError> = Answer::Success(vec![1, 2, 3]);
    let resp = answer.into_response();
    assert_eq!(resp.status, 200);
    match resp.body {
        Envelope::Success { payload } => assert_eq!(payload, vec![1, 2, 3]),
        Envelope::Failure { .. } => panic!("a success must not produce a failure body"),
    }
}

#[test]
fn not_found_maps_to_404_with_its_code() {
    let answer: Answer<(), TodoItemNotFound> = Answer::Failure(TodoItemNotFound);
    let resp = answer.into_response();
    assert_eq!(resp.status, 404);
    match resp.body {
        Envelope::Failure { error, detail } => {
            assert_eq!(error, "todo_item_not_found");
            assert_eq!(detail, None);
        }
        Envelope::Success { .. } => panic!("a failure must not produce a success body"),
    }
}

#[test]
fn bare_string_errors_default_to_400() {
    let answer: Answer<(), &'static str> = Answer::Failure("bad_request");
    let resp = answer.into_response();
    assert_eq!(resp.status, 400);
    match resp.body {
        Envelope::Failure { error, detail } => {
            assert_eq!(error, "bad_request");
            assert_eq!(detail, None);
        }
        Envelope::Success { .. } => panic!("a failure must not produce a success body"),
    }
}

#[test]
fn update_reply_routes_each_outcome() {
    assert!(matches!(update_reply(Ok(())), Ok(Answer::Success(()))));
    assert!(matches!(
        update_reply(Err(UpdateTodoError::NotFound)),
        Ok(Answer::Failure(TodoItemNotFound))
    ));
    assert!(matches!(
        update_reply(Err(UpdateTodoError::SqlError("disk gone".to_owned()))),
        Err(500)
    ));
}
