//! A minimal todo-list service core: an in-memory store with
//! create/list/mark/unmark/delete operations, the row decoding used by the
//! relational backend, and the uniform response envelope the handlers emit.

pub mod db;
pub mod responses;
pub mod store;
