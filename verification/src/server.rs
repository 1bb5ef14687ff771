//! The decisions of the REST server: which requests it refuses, what it asks the
//! store to write, and which HTTP reply each outcome of the store gets. The
//! store itself (SQLite, reached asynchronously) is driven by the caller, which
//! hands the outcome of each query back to these functions.
use vstd::prelude::*;

use crate::model::{Todo, TodoView, CreateTodo, UpdateTodo, UpdateTodoView, apply_update};
use crate::state::all_done;
use crate::text::{trim, trimmed};

verus! {

/// A failed query against the store; the caller logs its details.
#[derive(Debug, Clone, Copy, PartialEq, Eq, Structural)]
pub struct StoreError;

/// A reply of the REST API.
#[derive(Debug)]
pub enum ApiReply {
    /// 200, with the list of todos as a JSON array.
    Todos(Vec<Todo>),
    /// 200, with one todo as a JSON object.
    Found(Todo),
    /// 201, with the todo that was created.
    Created(Todo),
    /// 204, without a body.
    NoContent,
    /// 400, without a body.
    BadRequest,
    /// 404, without a body.
    NotFound,
    /// 500, without a body.
    ServerError,
}

impl ApiReply {
    /// The HTTP status code of a reply.
    pub open spec fn status_code(&self) -> u16 {
        match self {
            ApiReply::Todos(_) => 200,
            ApiReply::Found(_) => 200,
            ApiReply::Created(_) => 201,
            ApiReply::NoContent => 204,
            ApiReply::BadRequest => 400,
            ApiReply::NotFound => 404,
            ApiReply::ServerError => 500,
        }
    }

    /// The HTTP status code of this reply.
    pub fn status(&self) -> (r: u16)
        ensures
            r == self.status_code(),
    {
        match self {
            ApiReply::Todos(_) => 200,
            ApiReply::Found(_) => 200,
            ApiReply::Created(_) => 201,
            ApiReply::NoContent => 204,
            ApiReply::BadRequest => 400,
            ApiReply::NotFound => 404,
            ApiReply::ServerError => 500,
        }
    }
}

/// `GET /api/todos`: the stored list, or 500 when the store failed.
pub fn list_todos_reply(stored: Result<Vec<Todo>, StoreError>) -> (r: ApiReply)
    ensures
        match stored {
            Ok(todos) => r matches ApiReply::Todos(l) && l@ == todos@,
            Err(_) => r is ServerError,
        },
{
    match stored {
        Ok(todos) => ApiReply::Todos(todos),
        Err(_) => ApiReply::ServerError,
    }
}

/// Whether a title holds nothing but whitespace.
pub open spec fn blank(title: Seq<char>) -> bool {
    trimmed(title).len() == 0
}

/// `POST /api/todos`, before the store is asked: a title that is blank once
/// trimmed is refused with 400; any other request goes on to the store (`None`).
pub fn create_todo_check(input: &CreateTodo) -> (r: Option<ApiReply>)
    ensures
        blank(input.title@) ==> r matches Some(ApiReply::BadRequest),
        !blank(input.title@) ==> r is None,
{
    if trim(input.title.as_str()).is_empty() {
        Some(ApiReply::BadRequest)
    } else {
        None
    }
}

/// `POST /api/todos`, once the store has inserted: 201 with the new todo, or 500.
pub fn create_todo_reply(inserted: Result<Todo, StoreError>) -> (r: ApiReply)
    ensures
        match inserted {
            Ok(t) => r matches ApiReply::Created(c) && c == t,
            Err(_) => r is ServerError,
        },
{
    match inserted {
        Ok(t) => ApiReply::Created(t),
        Err(_) => ApiReply::ServerError,
    }
}

/// What an update writes, once the todo has been looked up.
#[derive(Debug)]
pub enum UpdatePlan {
    /// No todo has the id: nothing is written.
    Missing,
    /// Write this title and this completion state to the row with this id.
    Write { id: i64, title: String, completed: bool },
}

/// The update of the todo `id`, given the row that the store found for it:
/// nothing when there is none, else the fields of `input` that are present over
/// those of the row.
pub fn plan_update(id: i64, input: &UpdateTodo, existing: Option<Todo>) -> (r: UpdatePlan)
    ensures
        match existing {
            None => r is Missing,
            Some(e) => r matches UpdatePlan::Write { id: wid, title, completed } && wid == id
                && title@ == apply_update(e@, input@).title && completed == apply_update(
                e@,
                input@,
            ).completed && (input.title matches Some(t) ==> title@ == t@) && (input.title is None
                ==> title@ == e.title@) && (input.completed matches Some(c) ==> completed == c)
                && (input.completed is None ==> completed == e.completed),
        },
{
    match existing {
        None => UpdatePlan::Missing,
        Some(e) => {
            let title = match &input.title {
                Some(t) => t.clone(),
                None => e.title,
            };
            let completed = match input.completed {
                Some(c) => c,
                None => e.completed,
            };
            UpdatePlan::Write { id, title, completed }
        },
    }
}

/// `PATCH /api/todos/:id`: 200 with the updated todo, 404 when there is no such
/// todo, 500 when the store failed.
pub fn update_todo_reply(updated: Result<Option<Todo>, StoreError>) -> (r: ApiReply)
    ensures
        match updated {
            Ok(Some(t)) => r matches ApiReply::Found(f) && f == t,
            Ok(None) => r is NotFound,
            Err(_) => r is ServerError,
        },
{
    match updated {
        Ok(Some(t)) => ApiReply::Found(t),
        Ok(None) => ApiReply::NotFound,
        Err(_) => ApiReply::ServerError,
    }
}

/// Whether a delete removed the todo, from the number of rows it affected.
pub fn row_was_deleted(rows_affected: u64) -> (r: bool)
    ensures
        r == (rows_affected > 0),
{
    rows_affected > 0
}

/// `DELETE /api/todos/:id`: 204 when a todo was removed, 404 when none had the
/// id, 500 when the store failed.
pub fn delete_todo_reply(deleted: Result<bool, StoreError>) -> (r: ApiReply)
    ensures
        match deleted {
            Ok(true) => r is NoContent,
            Ok(false) => r is NotFound,
            Err(_) => r is ServerError,
        },
{
    match deleted {
        Ok(true) => ApiReply::NoContent,
        Ok(false) => ApiReply::NotFound,
        Err(_) => ApiReply::ServerError,
    }
}

/// `DELETE /api/todos/completed`: 204 whatever the number removed, 500 when the
/// store failed.
pub fn delete_completed_reply(removed: Result<u64, StoreError>) -> (r: ApiReply)
    ensures
        match removed {
            Ok(_) => r is NoContent,
            Err(_) => r is ServerError,
        },
{
    match removed {
        Ok(_) => ApiReply::NoContent,
        Err(_) => ApiReply::ServerError,
    }
}

/// The completion state that toggle-all writes to every todo, given what the
/// store answered to "is every todo completed?" (false for an empty table): the
/// opposite of that answer, and `true` when the question failed.
pub open spec fn toggle_target(all_completed: Result<bool, StoreError>) -> bool {
    match all_completed {
        Ok(b) => !b,
        Err(_) => true,
    }
}

/// The completion state that toggle-all writes to every todo.
pub fn toggle_all_target(all_completed: Result<bool, StoreError>) -> (r: bool)
    ensures
        r == toggle_target(all_completed),
{
    let all = match all_completed {
        Ok(b) => b,
        Err(_) => false,
    };
    !all
}

/// `PATCH /api/todos/toggle-all`: 200 with the list after the toggle, or 500.
pub fn toggle_all_reply(listed: Result<Vec<Todo>, StoreError>) -> (r: ApiReply)
    ensures
        match listed {
            Ok(todos) => r matches ApiReply::Todos(l) && l@ == todos@,
            Err(_) => r is ServerError,
        },
{
    match listed {
        Ok(todos) => ApiReply::Todos(todos),
        Err(_) => ApiReply::ServerError,
    }
}

/// The directory of the client's files: the configured one, else `dist`.
pub fn dist_dir_or_default(configured: Option<String>) -> (r: String)
    ensures
        r@ == match configured {
            Some(d) => d@,
            None => "dist"@,
        },
{
    match configured {
        Some(d) => d,
        None => String::from_str("dist"),
    }
}

/// The page served for any path that names no file: `index.html` in `dist_dir`.
pub fn index_html_path(dist_dir: &str) -> (r: String)
    ensures
        r@ == dist_dir@ + "/index.html"@,
{
    let mut p = String::from_str(dist_dir);
    p.append("/index.html");
    p
}

/// The rows after toggle-all wrote `c` to every one of them.
pub open spec fn with_completed(rows: Seq<TodoView>, c: bool) -> Seq<TodoView> {
    rows.map_values(
        |t: TodoView| TodoView { id: t.id, title: t.title, completed: c, created_at: t.created_at },
    )
}

/// Toggle-all on a table `rows` that is not empty, where the store answers the
/// all-completed question with `all_done(rows)` and then writes the target to
/// every row: when every todo was completed all are reopened, else all are
/// completed; and the table then reads as all completed exactly when the target
/// was `true`, so the client's toggle-all checkbox shows the state written.
pub proof fn lemma_toggle_all_effect(rows: Seq<TodoView>)
    requires
        rows.len() > 0,
    ensures
        toggle_target(Ok(all_done(rows))) == !all_done(rows),
        all_done(with_completed(rows, toggle_target(Ok(all_done(rows))))) == toggle_target(
            Ok(all_done(rows)),
        ),
{
    let t = toggle_target(Ok(all_done(rows)));
    let after = with_completed(rows, t);
    if !t {
        assert(!after[0].completed);
    }
}

/// Toggling twice, on the same terms, a table that is not empty and not all
/// completed leaves every todo open; toggling twice an all-completed table
/// leaves every todo completed.
pub proof fn lemma_toggle_all_twice(rows: Seq<TodoView>)
    requires
        rows.len() > 0,
    ensures
        ({
            let once = with_completed(rows, toggle_target(Ok(all_done(rows))));
            let twice = with_completed(once, toggle_target(Ok(all_done(once))));
            forall|i: int| 0 <= i < twice.len() ==> (#[trigger] twice[i]).completed == all_done(rows)
        }),
{
    let once = with_completed(rows, toggle_target(Ok(all_done(rows))));
    lemma_toggle_all_effect(rows);
    lemma_toggle_all_effect(once);
}

/// An update that names only a title keeps the completion state, one that names
/// only the completion state keeps the title, and an empty one changes nothing.
pub proof fn lemma_update_touches_only_named_fields(t: TodoView, title: Seq<char>, c: bool)
    ensures
        apply_update(t, UpdateTodoView { title: Some(title), completed: None }).completed
            == t.completed,
        apply_update(t, UpdateTodoView { title: Some(title), completed: None }).title == title,
        apply_update(t, UpdateTodoView { title: None, completed: Some(c) }).title == t.title,
        apply_update(t, UpdateTodoView { title: None, completed: Some(c) }).completed == c,
        apply_update(t, UpdateTodoView { title: None, completed: None }) == t,
{
}

/// Each field of an update acts on its own: a title that is sent is the title
/// written, whatever else the body holds, and so is a completion state; a field
/// that is not sent keeps the stored value; the id and creation time never change.
pub proof fn lemma_update_fields_are_independent(t: TodoView, u: UpdateTodoView)
    ensures
        u.title matches Some(x) ==> apply_update(t, u).title == x,
        u.title is None ==> apply_update(t, u).title == t.title,
        u.completed matches Some(c) ==> apply_update(t, u).completed == c,
        u.completed is None ==> apply_update(t, u).completed == t.completed,
        apply_update(t, u).id == t.id,
        apply_update(t, u).created_at == t.created_at,
{
}

/// Sending the same change twice writes what sending it once writes.
pub proof fn lemma_update_is_idempotent(t: TodoView, u: UpdateTodoView)
    ensures
        apply_update(apply_update(t, u), u) == apply_update(t, u),
{
}

} // verus!
