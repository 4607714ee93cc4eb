//! Stored records and the public response shape of a todo.

use vstd::prelude::*;

verus! {

/// A stored user. Timestamps are seconds since the Unix epoch.
#[derive(Debug, Clone)]
pub struct UserModel {
    pub id: String,
    pub username: String,
    pub email: String,
    pub password_hash: String,
    pub created_at: Option<i64>,
}

/// A stored todo. The completion flag is kept as the store's small integer,
/// zero meaning open; timestamps are seconds since the Unix epoch and filled in
/// by the store.
#[derive(Debug, Clone)]
pub struct TodoModel {
    pub id: String,
    pub user_id: String,
    pub title: String,
    pub description: Option<String>,
    pub is_completed: i8,
    pub created_at: Option<i64>,
    pub updated_at: Option<i64>,
}

/// The public shape of a todo: a boolean completion flag and timestamps that are
/// always present.
#[derive(Debug, Clone)]
pub struct TodoModelResponse {
    pub id: String,
    pub title: String,
    pub description: Option<String>,
    pub is_completed: bool,
    pub created_at: i64,
    pub updated_at: i64,
}

/// The response that a stored todo with both timestamps present is shown as.
pub open spec fn response_of(todo: TodoModel) -> TodoModelResponse {
    TodoModelResponse {
        id: todo.id,
        title: todo.title,
        description: todo.description,
        is_completed: todo.is_completed != 0,
        created_at: todo.created_at->Some_0,
        updated_at: todo.updated_at->Some_0,
    }
}

/// Both of the todo's timestamps are present.
pub open spec fn has_timestamps(todo: TodoModel) -> bool {
    todo.created_at is Some && todo.updated_at is Some
}

/// A copy of an optional string.
pub fn copy_text(s: &Option<String>) -> (r: Option<String>)
    ensures
        r == *s,
{
    match s {
        Some(t) => Some(t.clone()),
        None => None,
    }
}

/// Converts a stored todo into its public shape; `None` when the store left a
/// timestamp unset.
pub fn to_todo_response(todo: &TodoModel) -> (r: Option<TodoModelResponse>)
    ensures
        r is Some <==> has_timestamps(*todo),
        r is Some ==> r->Some_0 == response_of(*todo),
{
    match (todo.created_at, todo.updated_at) {
        (Some(created_at), Some(updated_at)) => Some(
            TodoModelResponse {
                id: todo.id.clone(),
                title: todo.title.clone(),
                description: copy_text(&todo.description),
                is_completed: todo.is_completed != 0,
                created_at,
                updated_at,
            },
        ),
        _ => None,
    }
}

/// Relies on uuid's Uuid::new_v4 and its hyphenated text form, which is always
/// 36 characters long.
#[verifier::external_body]
fn fresh_uuid() -> (r: String)
    ensures
        r@.len() == 36,
{
    uuid::Uuid::new_v4().to_string()
}

/// A fresh random record identifier.
pub fn new_id() -> (r: String)
    ensures
        r@.len() == 36,
{
    fresh_uuid()
}

} // verus!
