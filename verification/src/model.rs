//! The todo, and the bodies of the requests that create and change one.
use vstd::prelude::*;

verus! {

/// A todo as the server stores it and the client shows it.
#[derive(Debug, PartialEq, Eq)]
pub struct Todo {
    pub id: i64,
    pub title: String,
    pub completed: bool,
    pub created_at: String,
}

/// The mathematical value of a [`Todo`]: its strings taken as sequences of characters.
pub struct TodoView {
    pub id: i64,
    pub title: Seq<char>,
    pub completed: bool,
    pub created_at: Seq<char>,
}

impl View for Todo {
    type V = TodoView;

    open spec fn view(&self) -> TodoView {
        TodoView {
            id: self.id,
            title: self.title@,
            completed: self.completed,
            created_at: self.created_at@,
        }
    }
}

impl Clone for Todo {
    /// A copy of this todo, field for field.
    fn clone(&self) -> (r: Todo)
        ensures
            r@ == self@,
    {
        Todo {
            id: self.id,
            title: self.title.clone(),
            completed: self.completed,
            created_at: self.created_at.clone(),
        }
    }
}

/// The body of a request that creates a todo.
#[derive(Debug, Clone, PartialEq, Eq)]
pub struct CreateTodo {
    pub title: String,
}

/// The body of a request that changes a todo: each field that is present
/// replaces the stored one, each absent field leaves it as it is.
#[derive(Debug, Clone, PartialEq, Eq)]
pub struct UpdateTodo {
    pub title: Option<String>,
    pub completed: Option<bool>,
}

/// The mathematical value of an [`UpdateTodo`].
pub struct UpdateTodoView {
    pub title: Option<Seq<char>>,
    pub completed: Option<bool>,
}

impl View for UpdateTodo {
    type V = UpdateTodoView;

    open spec fn view(&self) -> UpdateTodoView {
        UpdateTodoView {
            title: match self.title {
                Some(t) => Some(t@),
                None => None,
            },
            completed: self.completed,
        }
    }
}

/// The todo `t` after the change `u`: present fields replace, absent ones keep.
pub open spec fn apply_update(t: TodoView, u: UpdateTodoView) -> TodoView {
    TodoView {
        id: t.id,
        title: match u.title {
            Some(title) => title,
            None => t.title,
        },
        completed: match u.completed {
            Some(c) => c,
            None => t.completed,
        },
        created_at: t.created_at,
    }
}

} // verus!
