//! The decisions behind each endpoint: what to hand the store, and how each of
//! its answers becomes a response. Every todo operation is keyed by the caller.

use vstd::prelude::*;
use crate::auth::{TOKEN_TTL_MINUTES, expiry_of, generate_jwt, signed_token};
use crate::middleware::AuthUser;
use crate::model::{
    TodoModel, TodoModelResponse, UserModel, copy_text, has_timestamps, new_id, response_of,
    to_todo_response,
};
use crate::password::{hash_password, password_matches, verify_password};
use crate::schema::{CreateTodoSchema, FilterOptions, RegisterSchema, UpdateTodoSchema};

verus! {

/// Page size used when a listing names none.
pub const DEFAULT_LIMIT: usize = 10;

/// Page number used when a listing names none; pages count from one.
pub const DEFAULT_PAGE: usize = 1;

/// How the store answered a query, reduced to what the endpoints distinguish.
#[derive(Debug, Clone)]
pub enum StoreError {
    /// The query matched no row.
    RowNotFound,
    /// An insert collided with a unique key.
    Duplicate,
    /// Any other failure, with the store's own description.
    Other(String),
}

/// An endpoint failure, as reported to the client.
#[derive(Debug, Clone)]
pub enum ApiError {
    /// Malformed query parameters.
    BadRequest,
    /// Bad credentials or no valid identity; the cause is never told.
    Unauthorized,
    /// The todo with this identifier does not exist for the caller.
    NotFound(String),
    /// A unique key is already taken.
    Conflict,
    /// Any other failure, with a diagnostic description.
    Internal(String),
}

/// The HTTP status code that reports `e`.
pub open spec fn status_of(e: ApiError) -> u16 {
    match e {
        ApiError::BadRequest => 400,
        ApiError::Unauthorized => 401,
        ApiError::NotFound(_) => 404,
        ApiError::Conflict => 409,
        ApiError::Internal(_) => 500,
    }
}

impl ApiError {
    /// The HTTP status code that reports this failure.
    pub fn status_code(&self) -> (r: u16)
        ensures
            r == status_of(*self),
    {
        match self {
            ApiError::BadRequest => 400,
            ApiError::Unauthorized => 401,
            ApiError::NotFound(_) => 404,
            ApiError::Conflict => 409,
            ApiError::Internal(_) => 500,
        }
    }
}

/// `a` is the endpoint failure that store failure `e` on a write or a listing
/// becomes: a unique key collision is a conflict, anything else an internal
/// failure that carries the store's description (empty for a missing row).
pub open spec fn reported_as(e: StoreError, a: ApiError) -> bool {
    match e {
        StoreError::Duplicate => a is Conflict,
        StoreError::Other(d) => a == ApiError::Internal(d),
        StoreError::RowNotFound => a is Internal && a->Internal_0@ == Seq::<char>::empty(),
    }
}

/// Maps a store failure on a write or a listing to an endpoint failure: a unique
/// key collision is a conflict, everything else an internal failure.
pub fn from_store_failure(e: StoreError) -> (r: ApiError)
    ensures
        reported_as(e, r),
{
    match e {
        StoreError::Duplicate => ApiError::Conflict,
        StoreError::Other(d) => ApiError::Internal(d),
        StoreError::RowNotFound => ApiError::Internal(String::new()),
    }
}

/* ------------------------------ pagination ------------------------------ */

/// The `(limit, offset)` window of a listing: page size `limit` (default 10) and
/// `offset = (page - 1) * limit` for the one-based `page` (default 1); `None`
/// for page zero or an offset that does not fit.
pub open spec fn window_of(page: Option<usize>, limit: Option<usize>) -> Option<(int, int)> {
    let p = match page {
        Some(p) => p as int,
        None => DEFAULT_PAGE as int,
    };
    let l = match limit {
        Some(l) => l as int,
        None => DEFAULT_LIMIT as int,
    };
    if p >= 1 && (p - 1) * l <= usize::MAX {
        Some((l, (p - 1) * l))
    } else {
        None
    }
}

impl FilterOptions {
    /// The `(limit, offset)` window these options select.
    pub fn window(&self) -> (r: Option<(usize, usize)>)
        ensures
            window_of(self.page, self.limit) == match r {
                Some((l, o)) => Some((l as int, o as int)),
                None => None,
            },
    {
        let limit: usize = match self.limit {
            Some(l) => l,
            None => DEFAULT_LIMIT,
        };
        let page: usize = match self.page {
            Some(p) => p,
            None => DEFAULT_PAGE,
        };
        if page == 0 {
            return None;
        }
        let skipped: usize = page - 1;
        match skipped.checked_mul(limit) {
            Some(offset) => Some((limit, offset)),
            None => None,
        }
    }
}

/// Consecutive pages of one size tile the listing: each starts where the one
/// before it ends, so no record is skipped or shown twice.
pub proof fn lemma_pages_tile(page: usize, limit: usize)
    requires
        page >= 1,
        page * limit <= usize::MAX,
        page + 1 <= usize::MAX,
    ensures
        window_of(Some(page), Some(limit)) is Some,
        window_of(Some((page + 1) as usize), Some(limit)) == Some((
            limit as int,
            window_of(Some(page), Some(limit))->Some_0.1 + limit,
        )),
{
    assert((page - 1) * limit <= page * limit) by (nonlinear_arith)
        requires
            page >= 1,
            limit >= 0,
    ;
    assert(((page + 1) - 1) * limit == (page - 1) * limit + limit) by (nonlinear_arith);
}

/* ---------------------------- listing todos ----------------------------- */

/// Shapes the rows of a listing into responses, failing when the store failed or
/// left a timestamp unset.
pub fn list_outcome(rows: Result<Vec<TodoModel>, StoreError>) -> (r: Result<
    Vec<TodoModelResponse>,
    ApiError,
>)
    ensures
        rows is Err ==> r is Err && reported_as(rows->Err_0, r->Err_0),
        rows is Ok ==> (r is Ok <==> forall|i: int|
            0 <= i < rows->Ok_0@.len() ==> has_timestamps(#[trigger] rows->Ok_0@[i])),
        r is Ok ==> r->Ok_0@ == rows->Ok_0@.map_values(|t: TodoModel| response_of(t)),
{
    match rows {
        Err(e) => Err(from_store_failure(e)),
        Ok(list) => {
            let mut out: Vec<TodoModelResponse> = Vec::new();
            let mut i: usize = 0;
            while i < list.len()
                invariant
                    rows == Ok::<Vec<TodoModel>, StoreError>(list),
                    0 <= i <= list@.len(),
                    out@ == list@.subrange(0, i as int).map_values(|t: TodoModel| response_of(t)),
                    forall|j: int| 0 <= j < i ==> has_timestamps(#[trigger] list@[j]),
                decreases list@.len() - i,
            {
                match to_todo_response(&list[i]) {
                    Some(resp) => out.push(resp),
                    None => {
                        assert(!has_timestamps(list@[i as int]));
                        assert(rows->Ok_0@[i as int] == list@[i as int]);
                        return Err(ApiError::Internal(String::new()));
                    },
                }
                proof {
                    assert(list@.subrange(0, i + 1) == list@.subrange(0, i as int).push(list@[i as int]));
                }
                i = i + 1;
            }
            proof {
                assert(list@.subrange(0, list@.len() as int) == list@);
            }
            Ok(out)
        },
    }
}

/* ------------------------------ accounts ------------------------------- */

/// A user row ready to be inserted.
#[derive(Debug, Clone)]
pub struct NewUser {
    pub id: String,
    pub username: String,
    pub email: String,
    pub password_hash: String,
}

/// Builds the row that registers `body`: a fresh identifier and a salted hash of
/// the password, never the password itself.
pub fn prepare_registration(body: &RegisterSchema) -> (r: Result<NewUser, ApiError>)
    ensures
        r matches Ok(u) ==> u.id@.len() == 36 && u.username == body.username && u.email
            == body.email && password_matches(body.password@, u.password_hash@),
        r is Err ==> r->Err_0 is Internal,
{
    match hash_password(body.password.as_str()) {
        Ok(password_hash) => Ok(
            NewUser {
                id: new_id(),
                username: body.username.clone(),
                email: body.email.clone(),
                password_hash,
            },
        ),
        Err(_) => Err(ApiError::Internal(String::new())),
    }
}

/// The answer to a registration whose insert of user `user_id` ended as
/// `insert`: the identifier, or the store failure (a taken email is a conflict).
pub fn registration_outcome(user_id: String, insert: Result<(), StoreError>) -> (r: Result<
    String,
    ApiError,
>)
    ensures
        insert is Ok ==> r == Ok::<String, ApiError>(user_id),
        insert is Err ==> r is Err && reported_as(insert->Err_0, r->Err_0),
{
    match insert {
        Ok(()) => Ok(user_id),
        Err(e) => Err(from_store_failure(e)),
    }
}

/// A login with `password` against the store's answer `user` to the email lookup
/// is accepted: the user exists and the password matches the stored hash.
pub open spec fn login_accepted(user: Result<UserModel, StoreError>, password: Seq<char>) -> bool {
    user is Ok && password_matches(password, user->Ok_0.password_hash@)
}

/// Checks a login: an unknown email and a wrong password are the same generic
/// `Unauthorized`, so the answer does not tell whether the email exists.
pub fn check_login(user: Result<UserModel, StoreError>, password: &str) -> (r: Result<
    UserModel,
    ApiError,
>)
    ensures
        r is Ok <==> login_accepted(user, password@),
        r is Ok ==> r->Ok_0 == user->Ok_0,
        r is Err ==> r->Err_0 is Unauthorized,
{
    match user {
        Ok(u) => {
            if verify_password(password, u.password_hash.as_str()) {
                Ok(u)
            } else {
                Err(ApiError::Unauthorized)
            }
        },
        Err(_) => Err(ApiError::Unauthorized),
    }
}

/// Logs in with `password` against the store's answer `user`, issuing a token
/// for the user on success.
pub fn login(secret: &[u8], user: Result<UserModel, StoreError>, password: &str) -> (r: Result<
    String,
    ApiError,
>)
    ensures
        !login_accepted(user, password@) ==> r matches Err(ApiError::Unauthorized),
        r is Ok ==> login_accepted(user, password@) && exists|now: usize|
            r->Ok_0@ == signed_token(
                user->Ok_0.id@,
                expiry_of(now as int, TOKEN_TTL_MINUTES as int),
                secret@,
            ),
        login_accepted(user, password@) ==> r is Ok,
{
    let u = check_login(user, password)?;
    match generate_jwt(secret, u.id.as_str()) {
        Ok(token) => Ok(token),
        Err(_) => Err(ApiError::Internal(String::new())),
    }
}

/// Whatever password registration hashed into a stored user logs that user in,
/// and a password that does not match the stored hash is turned away.
pub proof fn lemma_registered_user_logs_in(password: Seq<char>, wrong: Seq<char>, stored: UserModel)
    requires
        password_matches(password, stored.password_hash@),
        !password_matches(wrong, stored.password_hash@),
    ensures
        login_accepted(Ok(stored), password),
        !login_accepted(Ok(stored), wrong),
{
}

/// A second registration under a taken email is a conflict (409), not a failure
/// of the service.
pub proof fn lemma_duplicate_email_conflicts(a: ApiError)
    requires
        reported_as(StoreError::Duplicate, a),
    ensures
        a is Conflict,
        status_of(a) == 409,
{
}

/* -------------------------------- todos --------------------------------- */

/// The store key of todo `id` as seen by one caller: every todo query filters by
/// both fields, so no caller reaches another user's row.
#[derive(Debug, Clone)]
pub struct TodoKey {
    pub id: String,
    pub user_id: String,
}

impl TodoKey {
    /// The key of todo `id` scoped to `caller`.
    pub fn scoped(caller: &AuthUser, id: &str) -> (r: TodoKey)
        ensures
            r.id@ == id@,
            r.user_id@ == caller.0.sub@,
    {
        TodoKey { id: id.to_owned(), user_id: caller.user_id().to_owned() }
    }
}

/// A todo row ready to be inserted.
#[derive(Debug, Clone)]
pub struct NewTodo {
    pub id: String,
    pub user_id: String,
    pub title: String,
    pub description: Option<String>,
    pub is_completed: bool,
}

/// Builds the row that creates `body` for `caller`: a fresh identifier, the
/// caller as owner, and an open todo unless the body says otherwise.
pub fn new_todo(caller: &AuthUser, body: CreateTodoSchema) -> (r: NewTodo)
    ensures
        r.id@.len() == 36,
        r.user_id@ == caller.0.sub@,
        r.title == body.title,
        r.description == body.description,
        r.is_completed == body.is_completed.unwrap_or(false),
{
    NewTodo {
        id: new_id(),
        user_id: caller.user_id().to_owned(),
        title: body.title,
        description: body.description,
        is_completed: body.is_completed.unwrap_or(false),
    }
}

/// The store's small-integer encoding of a completion flag.
pub fn completion_flag(done: bool) -> (r: i8)
    ensures
        r == (if done { 1i8 } else { 0i8 }),
{
    if done { 1 } else { 0 }
}

/// The answer to a write (insert or update) that ended as `write`.
pub fn write_outcome(write: Result<(), StoreError>) -> (r: Result<(), ApiError>)
    ensures
        write is Ok ==> r is Ok,
        write is Err ==> r is Err && reported_as(write->Err_0, r->Err_0),
{
    match write {
        Ok(()) => Ok(()),
        Err(e) => Err(from_store_failure(e)),
    }
}

/// `a` is the endpoint failure that the store's failure `e` to find todo `id` for
/// the caller becomes: a missing row is "not found", whoever owns the id.
pub open spec fn lookup_failure(id: Seq<char>, e: StoreError, a: ApiError) -> bool {
    match e {
        StoreError::RowNotFound => a is NotFound && a->NotFound_0@ == id,
        StoreError::Duplicate => a is Internal && a->Internal_0@ == Seq::<char>::empty(),
        StoreError::Other(d) => a == ApiError::Internal(d),
    }
}

/// The todo that the caller's lookup of `id` found, or the failure it becomes.
pub fn lookup_outcome(id: &str, found: Result<TodoModel, StoreError>) -> (r: Result<
    TodoModel,
    ApiError,
>)
    ensures
        found is Ok ==> r == Ok::<TodoModel, ApiError>(found->Ok_0),
        found is Err ==> r is Err && lookup_failure(id@, found->Err_0, r->Err_0),
{
    match found {
        Ok(t) => Ok(t),
        Err(StoreError::RowNotFound) => Err(ApiError::NotFound(id.to_owned())),
        Err(StoreError::Duplicate) => Err(ApiError::Internal(String::new())),
        Err(StoreError::Other(d)) => Err(ApiError::Internal(d)),
    }
}

/// The response to a read of todo `id` (a get, or the read-back after a create or
/// an edit) whose store answer was `found`.
pub fn todo_outcome(id: &str, found: Result<TodoModel, StoreError>) -> (r: Result<
    TodoModelResponse,
    ApiError,
>)
    ensures
        found is Ok && has_timestamps(found->Ok_0) ==> r == Ok::<TodoModelResponse, ApiError>(
            response_of(found->Ok_0),
        ),
        found is Ok && !has_timestamps(found->Ok_0) ==> r matches Err(ApiError::Internal(_)),
        found is Err ==> r is Err && lookup_failure(id@, found->Err_0, r->Err_0),
{
    let t = lookup_outcome(id, found)?;
    match to_todo_response(&t) {
        Some(resp) => Ok(resp),
        None => Err(ApiError::Internal(String::new())),
    }
}

/// The fields that an edit writes back.
#[derive(Debug, Clone)]
pub struct TodoUpdate {
    pub title: String,
    pub description: Option<String>,
    pub is_completed: bool,
}

/// The fields that editing `existing` with `body` leaves: each field the body
/// names is replaced, each it omits keeps its stored value.
pub open spec fn merged(existing: TodoModel, body: UpdateTodoSchema) -> TodoUpdate {
    TodoUpdate {
        title: match body.title {
            Some(t) => t,
            None => existing.title,
        },
        description: match body.description {
            Some(d) => Some(d),
            None => existing.description,
        },
        is_completed: match body.is_completed {
            Some(c) => c,
            None => existing.is_completed != 0,
        },
    }
}

/// Merges the partial update `body` into the stored todo `existing`.
pub fn merge_update(existing: &TodoModel, body: UpdateTodoSchema) -> (r: TodoUpdate)
    ensures
        r == merged(*existing, body),
{
    let title = match body.title {
        Some(t) => t,
        None => existing.title.clone(),
    };
    let description = match body.description {
        Some(d) => Some(d),
        None => copy_text(&existing.description),
    };
    let is_completed = match body.is_completed {
        Some(c) => c,
        None => existing.is_completed != 0,
    };
    TodoUpdate { title, description, is_completed }
}

/// An edit that only marks a todo done keeps its title and description and sets
/// the flag.
pub proof fn lemma_completion_only_edit(existing: TodoModel, body: UpdateTodoSchema)
    requires
        body.title is None,
        body.description is None,
        body.is_completed == Some(true),
    ensures
        merged(existing, body).title == existing.title,
        merged(existing, body).description == existing.description,
        merged(existing, body).is_completed,
{
}

/// The answer to a delete of todo `id` that affected `deleted` rows: a delete that
/// removed nothing is "not found".
pub open spec fn delete_answer(id: Seq<char>, deleted: Result<u64, StoreError>, r: Result<
    (),
    ApiError,
>) -> bool {
    match deleted {
        Ok(n) => if n == 0 {
            r matches Err(ApiError::NotFound(m)) && m@ == id
        } else {
            r is Ok
        },
        Err(e) => r is Err && reported_as(e, r->Err_0),
    }
}

/// The answer to a delete of todo `id` scoped to the caller, given how many rows
/// it removed.
pub fn delete_outcome(id: &str, deleted: Result<u64, StoreError>) -> (r: Result<(), ApiError>)
    ensures
        delete_answer(id@, deleted, r),
{
    match deleted {
        Ok(n) => {
            if n == 0 {
                Err(ApiError::NotFound(id.to_owned()))
            } else {
                Ok(())
            }
        },
        Err(e) => Err(from_store_failure(e)),
    }
}

/// A todo read back right after its creation shows the title, description and
/// completion flag of the request, the flag being open when the request left it
/// out.
pub proof fn lemma_created_todo_reads_back(row: NewTodo, body: CreateTodoSchema, stored: TodoModel)
    requires
        row.title == body.title,
        row.description == body.description,
        row.is_completed == body.is_completed.unwrap_or(false),
        stored.id == row.id,
        stored.title == row.title,
        stored.description == row.description,
        stored.is_completed == (if row.is_completed { 1i8 } else { 0i8 }),
    ensures
        response_of(stored).title == body.title,
        response_of(stored).description == body.description,
        response_of(stored).is_completed == body.is_completed.unwrap_or(false),
        body.is_completed is None ==> !response_of(stored).is_completed,
{
}

/// A todo id that the caller does not own gets the same answer as one that does
/// not exist: the scoped store finds no row in either case, and get, edit and
/// delete all report "not found" naming only the id.
pub proof fn lemma_foreign_id_is_not_found(id: Seq<char>, a: ApiError, r: Result<(), ApiError>)
    requires
        lookup_failure(id, StoreError::RowNotFound, a),
        delete_answer(id, Ok(0u64), r),
    ensures
        a is NotFound && a->NotFound_0@ == id,
        r matches Err(ApiError::NotFound(m)) && m@ == id,
        status_of(a) == 404,
        status_of(r->Err_0) == 404,
{
}

/// Deleting a todo twice: the first delete removes the row and succeeds; the
/// second finds nothing to remove and reports "not found".
pub proof fn lemma_delete_twice(id: Seq<char>, first: Result<(), ApiError>, second: Result<(), ApiError>)
    requires
        delete_answer(id, Ok(1u64), first),
        delete_answer(id, Ok(0u64), second),
    ensures
        first is Ok,
        second is Err && status_of(second->Err_0) == 404,
{
}

} // verus!
