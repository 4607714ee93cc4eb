//! Request bodies and query options accepted by the endpoints.

use vstd::prelude::*;

verus! {

/// Body of a registration request.
#[derive(Debug, Default)]
pub struct RegisterSchema {
    pub username: String,
    pub email: String,
    pub password: String,
}

/// Body of a login request.
#[derive(Debug, Default)]
pub struct LoginSchema {
    pub email: String,
    pub password: String,
}

/// Query parameters for listing todos with pagination.
#[derive(Debug, Default)]
pub struct FilterOptions {
    pub page: Option<usize>,
    pub limit: Option<usize>,
}

/// Body of a create-todo request.
#[derive(Debug)]
pub struct CreateTodoSchema {
    pub title: String,
    pub description: Option<String>,
    pub is_completed: Option<bool>,
}

/// Body of a partial todo update: an absent field keeps its stored value.
#[derive(Debug)]
pub struct UpdateTodoSchema {
    pub title: Option<String>,
    pub description: Option<String>,
    pub is_completed: Option<bool>,
}

} // verus!
