use todomvc::client::{
    delete_completed_outcome, delete_todo_outcome, todo_path, COMPLETED_PATH, TODOS_PATH,
    TOGGLE_ALL_PATH,
};
use todomvc::model::{CreateTodo, Todo};
use todomvc::server::create_todo_check;
use todomvc::state::{Filter, TodoState};
use todomvc::view::{
    is_selected, items_left_label, section_display, shows_clear_completed, title_to_create,
    toggle_reply_step, toggle_request, toggle_shown_now,
};

#[test]
fn paths() {
    assert_eq!(TODOS_PATH, "/api/todos");
    assert_eq!(COMPLETED_PATH, "/api/todos/completed");
    assert_eq!(TOGGLE_ALL_PATH, "/api/todos/toggle-all");
    assert_eq!(todo_path(7), "/api/todos/7");
    assert_eq!(todo_path(9999), "/api/todos/9999");
    assert_eq!(todo_path(-12), "/api/todos/-12");
    assert_eq!(todo_path(0), "/api/todos/0");
}

#[test]
fn delete_outcomes() {
    assert_eq!(delete_todo_outcome(true, 204), Ok(()));
    assert_eq!(
        delete_todo_outcome(false, 404),
        Err("Delete failed with status 404".to_string())
    );
    assert_eq!(delete_completed_outcome(true, 204), Ok(()));
    assert_eq!(
        delete_completed_outcome(false, 500),
        Err("Delete completed failed with status 500".to_string())
    );
}

#[test]
fn new_todo_titles() {
    assert_eq!(title_to_create("  Buy milk  "), Some("Buy milk".to_string()));
    assert_eq!(title_to_create("   "), None);
    assert_eq!(title_to_create(""), None);
}

#[test]
fn toggling_asks_for_the_opposite() {
    let r = toggle_request(false);
    assert_eq!(r.title, None);
    assert_eq!(r.completed, Some(true));
    assert_eq!(toggle_request(true).completed, Some(false));
}

fn todo(id: i64, completed: bool) -> Todo {
    Todo { id, title: format!("t{}", id), completed, created_at: String::new() }
}

#[test]
fn footer_decisions() {
    let empty = TodoState::new();
    assert_eq!(section_display(&empty), "none");
    assert!(!shows_clear_completed(&empty));
    let s = TodoState { todos: vec![todo(1, false), todo(2, true)], filter: Filter::Active };
    assert_eq!(section_display(&s), "");
    assert!(shows_clear_completed(&s));
    assert!(is_selected(&s, Filter::Active));
    assert!(!is_selected(&s, Filter::All));
    assert_eq!(items_left_label(s.active_count()), " item left");
    assert_eq!(items_left_label(0), " items left");
    assert_eq!(items_left_label(2), " items left");
}

#[test]
fn sent_titles_pass_the_server_check() {
    for input in ["  Buy milk ", "x", "\u{3000}a b\t"] {
        let title = title_to_create(input).expect("not blank");
        assert!(create_todo_check(&CreateTodo { title }).is_none());
    }
}

#[test]
fn ticking_a_todo() {
    // Shown open, ticked: shows completed while asking, keeps it on success.
    assert!(toggle_shown_now(false));
    assert_eq!(toggle_reply_step(false, true), (true, true));
    // A refused tick restores what was shown and fetches nothing.
    assert_eq!(toggle_reply_step(false, false), (false, false));
    assert_eq!(toggle_reply_step(true, false), (true, false));
    // Two accepted ticks come back to the first state.
    let (once, _) = toggle_reply_step(false, true);
    let (twice, _) = toggle_reply_step(once, true);
    assert!(!twice);
}
