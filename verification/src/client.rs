//! The browser client's side of the REST API: the paths it requests and how it
//! reads the status of a reply that carries no body.
use vstd::prelude::*;

use crate::text::{
    decimal, lemma_signed_decimal_reads_back, push_decimal, push_signed_decimal, signed_decimal,
    signed_numeral_value,
};

verus! {

/// The path of the todo list.
pub const TODOS_PATH: &'static str = "/api/todos";

/// The path that removes every completed todo.
pub const COMPLETED_PATH: &'static str = "/api/todos/completed";

/// The path that toggles every todo.
pub const TOGGLE_ALL_PATH: &'static str = "/api/todos/toggle-all";

/// The path of the todo with id `id`.
pub fn todo_path(id: i64) -> (r: String)
    ensures
        r@ == "/api/todos/"@ + signed_decimal(id as int),
{
    let mut p = String::from_str("/api/todos/");
    push_signed_decimal(&mut p, id);
    p
}

/// The path of a todo names that todo: after the prefix `/api/todos/`, it reads
/// back as the id, so distinct ids give distinct paths.
pub proof fn lemma_todo_path_names_its_id(id: int)
    ensures
        ("/api/todos/"@ + signed_decimal(id)).skip("/api/todos/"@.len() as int) == signed_decimal(
            id,
        ),
        signed_numeral_value(
            ("/api/todos/"@ + signed_decimal(id)).skip("/api/todos/"@.len() as int),
        ) == id,
{
    assert(("/api/todos/"@ + signed_decimal(id)).skip("/api/todos/"@.len() as int)
        =~= signed_decimal(id));
    lemma_signed_decimal_reads_back(id);
}

/// The outcome of a delete request from the status of its reply: success for a
/// 2xx status (`ok`), else an error that names the status after `prefix`.
fn status_outcome(ok: bool, status: u16, prefix: &str) -> (r: Result<(), String>)
    ensures
        ok ==> r is Ok,
        !ok ==> (r matches Err(m) && m@ == prefix@ + decimal(status as nat)),
{
    if ok {
        Ok(())
    } else {
        let mut m = String::from_str(prefix);
        push_decimal(&mut m, status as u64);
        Err(m)
    }
}

/// The outcome of deleting one todo, from the reply's status.
pub fn delete_todo_outcome(ok: bool, status: u16) -> (r: Result<(), String>)
    ensures
        ok ==> r is Ok,
        !ok ==> (r matches Err(m) && m@ == "Delete failed with status "@ + decimal(
            status as nat,
        )),
{
    status_outcome(ok, status, "Delete failed with status ")
}

/// The outcome of deleting the completed todos, from the reply's status.
pub fn delete_completed_outcome(ok: bool, status: u16) -> (r: Result<(), String>)
    ensures
        ok ==> r is Ok,
        !ok ==> (r matches Err(m) && m@ == "Delete completed failed with status "@ + decimal(
            status as nat,
        )),
{
    status_outcome(ok, status, "Delete completed failed with status ")
}

} // verus!
