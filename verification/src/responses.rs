//! The uniform response envelope: every endpoint answers with
//! `{"status":"ok","payload":...}` on success or
//! `{"status":"error","error":...,"detail":...}` on failure, under an HTTP
//! status code chosen by the error's kind.

use vstd::prelude::*;

use crate::db::UpdateTodoError;

verus! {

/// Whether an optional detail string matches its spec-level value
/// (`None` stands for a null detail in the envelope).
pub open spec fn detail_matches(spec_detail: Option<Seq<char>>, detail: Option<String>) -> bool {
    match detail {
        None => spec_detail is None,
        Some(s) => spec_detail == Some(s@),
    }
}

/// A client-visible error the envelope can carry: a machine-readable
/// code, an HTTP status, and optional structured detail.
pub trait WebError {
    /// The code placed in the envelope's `error` field.
    spec fn code_spec(&self) -> Seq<char>;

    /// The HTTP status code the error maps to.
    spec fn status_spec(&self) -> u16;

    /// The envelope's `detail` field; `None` stands for null.
    spec fn detail_spec(&self) -> Option<Seq<char>>;

    fn code(&self) -> (code: &'static str)
        ensures
            code@ == self.code_spec(),
    ;

    fn status(&self) -> (status: u16)
        ensures
            status == self.status_spec(),
    ;

    fn detail(&self) -> (detail: Option<String>)
        ensures
            detail_matches(self.detail_spec(), detail),
    ;
}

/// The referenced todo id does not exist; served as a 404 with the code
/// `todo_item_not_found`.
#[derive(Debug, PartialEq)]
pub struct TodoItemNotFound;

impl WebError for TodoItemNotFound {
    open spec fn code_spec(&self) -> Seq<char> {
        "todo_item_not_found"@
    }

    open spec fn status_spec(&self) -> u16 {
        404
    }

    open spec fn detail_spec(&self) -> Option<Seq<char>> {
        None
    }

    fn code(&self) -> (code: &'static str) {
        "todo_item_not_found"
    }

    fn status(&self) -> (status: u16) {
        404
    }

    fn detail(&self) -> (detail: Option<String>) {
        None
    }
}

/// Any bare string can serve as an error: the string itself is the code,
/// under the default 400 status, with no detail.
impl WebError for &'static str {
    open spec fn code_spec(&self) -> Seq<char> {
        self@
    }

    open spec fn status_spec(&self) -> u16 {
        400
    }

    open spec fn detail_spec(&self) -> Option<Seq<char>> {
        None
    }

    fn code(&self) -> (code: &'static str) {
        *self
    }

    fn status(&self) -> (status: u16) {
        400
    }

    fn detail(&self) -> (detail: Option<String>) {
        None
    }
}

/// The error type of answers that cannot fail: the library offers no way
/// to construct a value of it, and the service never does.
pub struct NoError {
    no_value: (),
}

impl WebError for NoError {
    open spec fn code_spec(&self) -> Seq<char> {
        ""@
    }

    open spec fn status_spec(&self) -> u16 {
        400
    }

    open spec fn detail_spec(&self) -> Option<Seq<char>> {
        None
    }

    fn code(&self) -> (code: &'static str) {
        let _ = self.no_value;
        ""
    }

    fn status(&self) -> (status: u16) {
        400
    }

    fn detail(&self) -> (detail: Option<String>) {
        None
    }
}

/// The outcome a handler reports: a payload to envelope as success, or a
/// web error to envelope as failure.
#[derive(Debug)]
pub enum Answer<T, E = NoError> {
    Success(T),
    Failure(E),
}

/// The body of the uniform envelope: success with a payload, or failure
/// with a machine-readable code and optional detail.
#[derive(Debug)]
pub enum Envelope<T> {
    Success { payload: T },
    Failure { error: String, detail: Option<String> },
}

/// One HTTP response, reduced to what the core determines: the status
/// code and the envelope body to serialize.
#[derive(Debug)]
pub struct ResponseParts<T> {
    pub status: u16,
    pub body: Envelope<T>,
}

impl<T, E: WebError> Answer<T, E> {
    /// Turns an answer into the status and envelope the service sends:
    /// 200 with the payload on success; the error's own status with its
    /// code and detail on failure.
    pub fn into_response(self) -> (resp: ResponseParts<T>)
        ensures
            match self {
                Answer::Success(payload) => resp.status == 200 && resp.body == (Envelope::Success {
                    payload,
                }),
                Answer::Failure(e) => resp.status == e.status_spec() && (resp.body matches
                    Envelope::Failure { error, detail } && error@ == e.code_spec()
                    && detail_matches(e.detail_spec(), detail)),
            },
    {
        match self {
            Answer::Success(payload) => ResponseParts {
                status: 200,
                body: Envelope::Success { payload },
            },
            Answer::Failure(e) => {
                let status = e.status();
                let error = e.code().to_owned();
                let detail = e.detail();
                ResponseParts { status, body: Envelope::Failure { error, detail } }
            },
        }
    }
}

/// The handler's uniform translation of a store update outcome: success
/// and `NotFound` become answers to envelope; a persistence fault becomes
/// a bare 500 for the server to surface as a generic fault.
pub fn update_reply(outcome: Result<(), UpdateTodoError>) -> (reply: Result<
    Answer<(), TodoItemNotFound>,
    u16,
>)
    ensures
        match outcome {
            Ok(()) => reply == Ok::<Answer<(), TodoItemNotFound>, u16>(Answer::Success(())),
            Err(UpdateTodoError::NotFound) => reply == Ok::<Answer<(), TodoItemNotFound>, u16>(
                Answer::Failure(TodoItemNotFound),
            ),
            Err(UpdateTodoError::SqlError(_)) => reply == Err::<Answer<(), TodoItemNotFound>, u16>(
                500,
            ),
        },
{
    match outcome {
        Ok(()) => Ok(Answer::Success(())),
        Err(UpdateTodoError::NotFound) => Ok(Answer::Failure(TodoItemNotFound)),
        Err(UpdateTodoError::SqlError(_)) => Err(500),
    }
}

} // verus!
