use todomvc::model::Todo;
use todomvc::state::{Filter, TodoState};

fn todo(id: i64, title: &str, completed: bool) -> Todo {
    Todo {
        id,
        title: title.to_string(),
        completed,
        created_at: "2024-01-01 00:00:00".to_string(),
    }
}

fn state(todos: Vec<Todo>, filter: Filter) -> TodoState {
    TodoState { todos, filter }
}

#[test]
fn from_hash_selects_filter() {
    assert_eq!(Filter::from_hash("#/active"), Filter::Active);
    assert_eq!(Filter::from_hash("#/completed"), Filter::Completed);
    assert_eq!(Filter::from_hash("#/"), Filter::All);
    assert_eq!(Filter::from_hash(""), Filter::All);
    assert_eq!(Filter::from_hash("#/Active"), Filter::All);
    assert_eq!(Filter::from_hash("#/active/"), Filter::All);
}

#[test]
fn links_lead_back_to_their_filter() {
    for f in [Filter::All, Filter::Active, Filter::Completed] {
        assert_eq!(Filter::from_hash(f.link()), f);
    }
    assert_eq!(Filter::All.link(), "#/");
}

#[test]
fn matches_by_completion() {
    let open = todo(1, "a", false);
    let done = todo(2, "b", true);
    assert!(Filter::All.matches(&open) && Filter::All.matches(&done));
    assert!(Filter::Active.matches(&open) && !Filter::Active.matches(&done));
    assert!(!Filter::Completed.matches(&open) && Filter::Completed.matches(&done));
}

#[test]
fn new_state_is_empty_and_shows_all() {
    let s = TodoState::new();
    assert!(s.todos.is_empty());
    assert_eq!(s.filter, Filter::All);
    assert_eq!(s.active_count(), 0);
    assert_eq!(s.completed_count(), 0);
    assert!(!s.all_completed());
}

#[test]
fn counts_partition_the_list() {
    let s = state(
        vec![todo(1, "a", false), todo(2, "b", true), todo(3, "c", false)],
        Filter::All,
    );
    assert_eq!(s.active_count(), 2);
    assert_eq!(s.completed_count(), 1);
    assert_eq!(s.active_count() + s.completed_count(), s.todos.len());
    assert!(!s.all_completed());
}

#[test]
fn all_completed_needs_a_todo() {
    let s = state(vec![todo(1, "a", true), todo(2, "b", true)], Filter::All);
    assert!(s.all_completed());
    assert_eq!(s.active_count(), 0);
    let one_open = state(vec![todo(1, "a", true), todo(2, "b", false)], Filter::All);
    assert!(!one_open.all_completed());
}

#[test]
fn filtered_todos_keep_order() {
    let todos = vec![todo(1, "a", false), todo(2, "b", true), todo(3, "c", false), todo(4, "d", true)];
    let all = state(todos.clone(), Filter::All).filtered_todos();
    assert_eq!(all, todos);
    let active = state(todos.clone(), Filter::Active).filtered_todos();
    assert_eq!(active.iter().map(|t| t.id).collect::<Vec<_>>(), vec![1, 3]);
    let completed = state(todos.clone(), Filter::Completed).filtered_todos();
    assert_eq!(completed.iter().map(|t| t.id).collect::<Vec<_>>(), vec![2, 4]);
    assert_eq!(completed[0], todos[1]);
}

#[test]
fn clone_keeps_every_field() {
    let t = todo(7, "Buy milk", true);
    assert_eq!(t.clone(), t);
}
