//! The decisions that the page's components make: which title a new todo gets,
//! what ticking a todo asks the server, and what the footer and the list show.
use vstd::prelude::*;

use crate::model::UpdateTodo;
use crate::server::blank;
use crate::state::{Filter, TodoState, visible};
use crate::text::{trim, trimmed};

verus! {

/// The title of the todo to create when Enter is pressed in the input field:
/// the input trimmed, or nothing when that is empty.
pub fn title_to_create(input: &str) -> (r: Option<String>)
    ensures
        trimmed(input@).len() == 0 ==> r is None,
        trimmed(input@).len() > 0 ==> (r matches Some(t) && t@ == trimmed(input@)),
{
    let t = trim(input);
    if t.is_empty() {
        None
    } else {
        Some(String::from_str(t))
    }
}

/// The change that ticking (or unticking) a todo asks for: the opposite
/// completion state, and no title.
pub fn toggle_request(completed: bool) -> (r: UpdateTodo)
    ensures
        r.title is None,
        r.completed == Some(!completed),
{
    UpdateTodo { title: None, completed: Some(!completed) }
}

/// What a todo's checkbox shows while the server is asked to change it: the
/// state it asks for, opposite to the one shown before the tick.
pub fn toggle_shown_now(shown_before: bool) -> (r: bool)
    ensures
        r == !shown_before,
{
    !shown_before
}

/// (state to show, whether to refetch) after the server answered a tick of a
/// checkbox that showed `shown_before`.
pub open spec fn toggle_reply(shown_before: bool, ok: bool) -> (bool, bool) {
    if ok {
        (!shown_before, true)
    } else {
        (shown_before, false)
    }
}

/// The step after the server answered a tick of a todo's checkbox that showed
/// `shown_before`: on success the new state stays shown and the list is fetched
/// again; on failure the state shown before the tick comes back and nothing is
/// fetched. The result is (state to show, whether to refetch).
pub fn toggle_reply_step(shown_before: bool, ok: bool) -> (r: (bool, bool))
    ensures
        r == toggle_reply(shown_before, ok),
        ok ==> r == (!shown_before, true),
        !ok ==> r == (shown_before, false),
{
    if ok {
        (!shown_before, true)
    } else {
        (shown_before, false)
    }
}

/// Two ticks that the server accepts bring the checkbox back to what it showed
/// first, and a tick that the server refuses leaves it as it was.
pub proof fn lemma_ticks_of_a_todo(shown: bool)
    ensures
        toggle_reply(toggle_reply(shown, true).0, true).0 == shown,
        toggle_reply(shown, false).0 == shown,
        !toggle_reply(shown, false).1,
        toggle_reply(shown, true).1,
{
}

/// The CSS `display` of the list and of the footer: hidden while there is no todo.
pub fn section_display(state: &TodoState) -> (r: &'static str)
    ensures
        state@.todos.len() == 0 ==> r@ == "none"@,
        state@.todos.len() > 0 ==> r@ == ""@,
{
    if state.todos.len() == 0 {
        "none"
    } else {
        ""
    }
}

/// The words after the count of active todos.
pub fn items_left_label(active: usize) -> (r: &'static str)
    ensures
        active == 1 ==> r@ == " item left"@,
        active != 1 ==> r@ == " items left"@,
{
    if active == 1 {
        " item left"
    } else {
        " items left"
    }
}

/// Whether the footer offers to clear the completed todos: when there is one.
pub fn shows_clear_completed(state: &TodoState) -> (r: bool)
    ensures
        r == (visible(state@.todos, Filter::Completed).len() > 0),
{
    state.completed_count() > 0
}

/// Whether the filter bar marks the link of `f` as selected.
pub fn is_selected(state: &TodoState, f: Filter) -> (r: bool)
    ensures
        r == (state@.filter == f),
{
    state.filter == f
}

/// Every title that the input field sends passes the server's check: the
/// server trims it again and finds it not blank.
pub proof fn lemma_sent_titles_are_accepted(input: Seq<char>)
    requires
        trimmed(input).len() > 0,
    ensures
        !blank(trimmed(input)),
{
    crate::text::lemma_trim_idempotent(input);
}

} // verus!
