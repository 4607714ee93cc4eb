//! A multi-user to-do service core: password hashing, signed identity tokens,
//! request authentication and the owner-scoped decisions behind each endpoint.

pub mod auth;
pub mod schema;
pub mod password;
pub mod model;
pub mod middleware;
pub mod handler;
