use todo_backend::auth::{verify_jwt, Claims};
use todo_backend::handler::{
    check_login, completion_flag, delete_outcome, list_outcome, login, lookup_outcome,
    merge_update, new_todo, prepare_registration, registration_outcome, todo_outcome,
    write_outcome, ApiError, StoreError, TodoKey,
};
use todo_backend::middleware::AuthUser;
use todo_backend::model::{new_id, to_todo_response, TodoModel, UserModel};
use todo_backend::schema::{CreateTodoSchema, FilterOptions, RegisterSchema, UpdateTodoSchema};

const SECRET: &[u8] = b"handler-secret";

fn caller(id: &str) -> AuthUser {
    AuthUser(Claims::issued_at(id, 0, 60))
}

fn row(id: &str, owner: &str, title: &str, done: i8) -> TodoModel {
    TodoModel {
        id: id.to_string(),
        user_id: owner.to_string(),
        title: title.to_string(),
        description: Some(format!("about {}", title)),
        is_completed: done,
        created_at: Some(1_000),
        updated_at: Some(2_000),
    }
}

fn stored_user(reg: &RegisterSchema) -> UserModel {
    let u = prepare_registration(reg).unwrap();
    UserModel {
        id: u.id,
        username: u.username,
        email: u.email,
        password_hash: u.password_hash,
        created_at: Some(0),
    }
}

#[test]
fn window_defaults_to_first_page_of_ten() {
    assert_eq!(FilterOptions::default().window(), Some((10, 0)));
}

#[test]
fn window_second_page_of_five_skips_five() {
    let opts = FilterOptions { page: Some(2), limit: Some(5) };
    assert_eq!(opts.window(), Some((5, 5)));
    let third = FilterOptions { page: Some(3), limit: Some(5) };
    assert_eq!(third.window(), Some((5, 10)));
}

#[test]
fn window_rejects_page_zero_and_overflow() {
    assert_eq!(FilterOptions { page: Some(0), limit: None }.window(), None);
    assert_eq!(FilterOptions { page: Some(usize::MAX), limit: Some(2) }.window(), None);
}

#[test]
fn registration_builds_hashed_row() {
    let reg = RegisterSchema {
        username: "ann".to_string(),
        email: "ann@example.com".to_string(),
        password: "s3cret".to_string(),
    };
    let u = prepare_registration(&reg).unwrap();
    assert_eq!(u.id.len(), 36);
    assert_eq!(u.username, "ann");
    assert_eq!(u.email, "ann@example.com");
    assert_ne!(u.password_hash, "s3cret");
    assert!(todo_backend::password::verify_password("s3cret", &u.password_hash));
}

#[test]
fn registration_outcomes() {
    assert_eq!(registration_outcome("id-1".to_string(), Ok(())).unwrap(), "id-1");
    let dup = registration_outcome("id-2".to_string(), Err(StoreError::Duplicate)).unwrap_err();
    assert!(matches!(dup, ApiError::Conflict));
    assert_eq!(dup.status_code(), 409);
    let other =
        registration_outcome("id-3".to_string(), Err(StoreError::Other("down".to_string())))
            .unwrap_err();
    assert!(matches!(other, ApiError::Internal(ref d) if d == "down"));
    assert_eq!(other.status_code(), 500);
}

#[test]
fn register_then_login_issues_token() {
    let reg = RegisterSchema {
        username: "bo".to_string(),
        email: "bo@example.com".to_string(),
        password: "pw-bo".to_string(),
    };
    let user = stored_user(&reg);
    let id = user.id.clone();
    let token = login(SECRET, Ok(user), "pw-bo").unwrap();
    assert_eq!(verify_jwt(SECRET, &token).unwrap().sub, id);
}

#[test]
fn login_with_wrong_password_is_unauthorized() {
    let reg = RegisterSchema {
        username: "cy".to_string(),
        email: "cy@example.com".to_string(),
        password: "right".to_string(),
    };
    let err = login(SECRET, Ok(stored_user(&reg)), "wrong").unwrap_err();
    assert!(matches!(err, ApiError::Unauthorized));
    assert_eq!(err.status_code(), 401);
}

#[test]
fn login_with_unknown_email_is_unauthorized() {
    let err = check_login(Err(StoreError::RowNotFound), "x").unwrap_err();
    assert!(matches!(err, ApiError::Unauthorized));
    let err = login(SECRET, Err(StoreError::Other("io".to_string())), "x").unwrap_err();
    assert!(matches!(err, ApiError::Unauthorized));
}

#[test]
fn login_with_malformed_stored_hash_is_unauthorized() {
    let user = UserModel {
        id: "u".to_string(),
        username: "u".to_string(),
        email: "u@x".to_string(),
        password_hash: "garbage".to_string(),
        created_at: None,
    };
    assert!(matches!(check_login(Ok(user), "pw").unwrap_err(), ApiError::Unauthorized));
}

#[test]
fn new_todo_defaults_to_open() {
    let body = CreateTodoSchema { title: "milk".to_string(), description: None, is_completed: None };
    let t = new_todo(&caller("owner"), body);
    assert_eq!(t.user_id, "owner");
    assert_eq!(t.title, "milk");
    assert_eq!(t.description, None);
    assert!(!t.is_completed);
    assert_eq!(t.id.len(), 36);
    let done = new_todo(
        &caller("owner"),
        CreateTodoSchema {
            title: "eggs".to_string(),
            description: Some("a dozen".to_string()),
            is_completed: Some(true),
        },
    );
    assert!(done.is_completed);
    assert_eq!(done.description.as_deref(), Some("a dozen"));
}

#[test]
fn created_todo_reads_back_identically() {
    let body = CreateTodoSchema {
        title: "write report".to_string(),
        description: Some("quarterly".to_string()),
        is_completed: None,
    };
    let n = new_todo(&caller("owner"), body);
    let stored = TodoModel {
        id: n.id.clone(),
        user_id: n.user_id.clone(),
        title: n.title.clone(),
        description: n.description.clone(),
        is_completed: completion_flag(n.is_completed),
        created_at: Some(5),
        updated_at: Some(5),
    };
    let resp = todo_outcome(&n.id, Ok(stored)).unwrap();
    assert_eq!(resp.id, n.id);
    assert_eq!(resp.title, "write report");
    assert_eq!(resp.description.as_deref(), Some("quarterly"));
    assert!(!resp.is_completed);
}

#[test]
fn completion_flag_encoding() {
    assert_eq!(completion_flag(true), 1);
    assert_eq!(completion_flag(false), 0);
}

#[test]
fn todo_key_is_scoped_to_caller() {
    let k = TodoKey::scoped(&caller("alice"), "todo-1");
    assert_eq!(k.id, "todo-1");
    assert_eq!(k.user_id, "alice");
}

#[test]
fn foreign_or_missing_todo_is_not_found() {
    let err = todo_outcome("todo-9", Err(StoreError::RowNotFound)).unwrap_err();
    assert!(matches!(err, ApiError::NotFound(ref id) if id == "todo-9"));
    assert_eq!(err.status_code(), 404);
    let err = lookup_outcome("todo-9", Err(StoreError::RowNotFound)).unwrap_err();
    assert!(matches!(err, ApiError::NotFound(ref id) if id == "todo-9"));
    let err = delete_outcome("todo-9", Ok(0)).unwrap_err();
    assert!(matches!(err, ApiError::NotFound(ref id) if id == "todo-9"));
}

#[test]
fn todo_outcome_store_failure_is_internal() {
    let err = todo_outcome("t", Err(StoreError::Other("boom".to_string()))).unwrap_err();
    assert!(matches!(err, ApiError::Internal(ref d) if d == "boom"));
    let mut r = row("t", "o", "x", 0);
    r.updated_at = None;
    assert!(matches!(todo_outcome("t", Ok(r)).unwrap_err(), ApiError::Internal(_)));
}

#[test]
fn partial_edit_flips_only_completion() {
    let existing = row("t1", "o", "title", 0);
    let body = UpdateTodoSchema { title: None, description: None, is_completed: Some(true) };
    let u = merge_update(&existing, body);
    assert_eq!(u.title, "title");
    assert_eq!(u.description.as_deref(), Some("about title"));
    assert!(u.is_completed);
}

#[test]
fn edit_replaces_named_fields() {
    let mut existing = row("t1", "o", "old", 1);
    existing.description = None;
    let body = UpdateTodoSchema {
        title: Some("new".to_string()),
        description: Some("text".to_string()),
        is_completed: None,
    };
    let u = merge_update(&existing, body);
    assert_eq!(u.title, "new");
    assert_eq!(u.description.as_deref(), Some("text"));
    assert!(u.is_completed);
    let keep = merge_update(
        &existing,
        UpdateTodoSchema { title: None, description: None, is_completed: None },
    );
    assert_eq!(keep.description, None);
}

#[test]
fn delete_twice_second_is_not_found() {
    assert!(delete_outcome("t1", Ok(1)).is_ok());
    let err = delete_outcome("t1", Ok(0)).unwrap_err();
    assert_eq!(err.status_code(), 404);
    assert!(matches!(delete_outcome("t1", Err(StoreError::Other("x".to_string()))), Err(ApiError::Internal(_))));
}

#[test]
fn write_outcome_duplicate_is_conflict() {
    assert!(write_outcome(Ok(())).is_ok());
    assert!(matches!(write_outcome(Err(StoreError::Duplicate)).unwrap_err(), ApiError::Conflict));
}

#[test]
fn list_outcome_shapes_rows_in_order() {
    let rows: Vec<TodoModel> =
        (1..=3).map(|i| row(&format!("t{}", i), "o", &format!("n{}", i), (i % 2) as i8)).collect();
    let out = list_outcome(Ok(rows)).unwrap();
    assert_eq!(out.len(), 3);
    assert_eq!(out[0].id, "t1");
    assert!(out[0].is_completed);
    assert_eq!(out[1].title, "n2");
    assert!(!out[1].is_completed);
    assert_eq!(out[2].created_at, 1_000);
    assert_eq!(out[2].updated_at, 2_000);
    assert!(list_outcome(Ok(Vec::new())).unwrap().is_empty());
}

#[test]
fn list_outcome_failures() {
    assert!(matches!(list_outcome(Err(StoreError::Other("db".to_string()))), Err(ApiError::Internal(_))));
    let mut r = row("t", "o", "x", 0);
    r.created_at = None;
    assert!(matches!(list_outcome(Ok(vec![r])), Err(ApiError::Internal(_))));
}

#[test]
fn response_maps_completion_flag() {
    let r = to_todo_response(&row("a", "o", "t", 3)).unwrap();
    assert!(r.is_completed);
    assert_eq!(r.title, "t");
    let mut missing = row("a", "o", "t", 0);
    missing.created_at = None;
    assert!(to_todo_response(&missing).is_none());
}

#[test]
fn ids_are_fresh() {
    let a = new_id();
    let b = new_id();
    assert_eq!(a.len(), 36);
    assert_ne!(a, b);
}

#[test]
fn status_codes() {
    assert_eq!(ApiError::BadRequest.status_code(), 400);
    assert_eq!(ApiError::Unauthorized.status_code(), 401);
    assert_eq!(ApiError::NotFound("x".to_string()).status_code(), 404);
    assert_eq!(ApiError::Conflict.status_code(), 409);
    assert_eq!(ApiError::Internal(String::new()).status_code(), 500);
}
