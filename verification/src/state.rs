//! The client's view state: the list of todos that the server last returned and
//! the filter chosen by the URL hash, with the counts and the filtered list that
//! the page shows.
use vstd::prelude::*;

use crate::model::{Todo, TodoView};
use crate::text::str_eq;

verus! {

/// Which todos the list shows.
#[derive(Debug, Clone, Copy, PartialEq, Eq, Structural)]
pub enum Filter {
    All,
    Active,
    Completed,
}

/// The filter that the URL hash `hash` selects.
pub open spec fn hash_filter(hash: Seq<char>) -> Filter {
    if hash == "#/active"@ {
        Filter::Active
    } else if hash == "#/completed"@ {
        Filter::Completed
    } else {
        Filter::All
    }
}

impl Filter {
    /// Whether a todo with view `t` passes this filter.
    pub open spec fn admits(self, t: TodoView) -> bool {
        match self {
            Filter::All => true,
            Filter::Active => !t.completed,
            Filter::Completed => t.completed,
        }
    }

    /// The filter for the URL hash: `#/active` and `#/completed` select theirs,
    /// anything else selects all.
    pub fn from_hash(hash: &str) -> (r: Filter)
        ensures
            r == hash_filter(hash@),
    {
        if str_eq(hash, "#/active") {
            Filter::Active
        } else if str_eq(hash, "#/completed") {
            Filter::Completed
        } else {
            Filter::All
        }
    }

    /// The URL hash of this filter's link in the filter bar.
    pub open spec fn link_hash(self) -> Seq<char> {
        match self {
            Filter::All => "#/"@,
            Filter::Active => "#/active"@,
            Filter::Completed => "#/completed"@,
        }
    }

    /// The `href` of this filter's link in the filter bar.
    pub fn link(&self) -> (r: &'static str)
        ensures
            r@ == self.link_hash(),
    {
        match self {
            Filter::All => "#/",
            Filter::Active => "#/active",
            Filter::Completed => "#/completed",
        }
    }

    /// Whether `todo` passes this filter.
    pub fn matches(&self, todo: &Todo) -> (r: bool)
        ensures
            r == self.admits(todo@),
    {
        match self {
            Filter::All => true,
            Filter::Active => !todo.completed,
            Filter::Completed => todo.completed,
        }
    }
}

/// The views of a list of todos.
pub open spec fn views(todos: Seq<Todo>) -> Seq<TodoView> {
    todos.map_values(|t: Todo| t@)
}

/// The todos of `s` that pass `f`, in their order in `s`.
pub open spec fn visible(s: Seq<TodoView>, f: Filter) -> Seq<TodoView> {
    s.filter(|t: TodoView| f.admits(t))
}

/// Every todo of `s` is completed, and there is at least one.
pub open spec fn all_done(s: Seq<TodoView>) -> bool {
    s.len() > 0 && forall|i: int| 0 <= i < s.len() ==> (#[trigger] s[i]).completed
}

/// Every todo is either active or completed: the two counts add up to the
/// length of the list.
pub proof fn lemma_counts_partition(s: Seq<TodoView>)
    ensures
        visible(s, Filter::Active).len() + visible(s, Filter::Completed).len() == s.len(),
    decreases s.len(),
{
    reveal_with_fuel(Seq::filter, 1);
    if s.len() > 0 {
        lemma_counts_partition(s.drop_last());
    }
}

/// The `All` filter shows the whole list, in order.
pub proof fn lemma_all_shows_everything(s: Seq<TodoView>)
    ensures
        visible(s, Filter::All) == s,
    decreases s.len(),
{
    reveal_with_fuel(Seq::filter, 1);
    if s.len() > 0 {
        lemma_all_shows_everything(s.drop_last());
        assert(s.drop_last().push(s.last()) =~= s);
    }
}

proof fn lemma_no_active_means_all_completed(s: Seq<TodoView>)
    ensures
        visible(s, Filter::Active).len() == 0 <==> forall|i: int|
            0 <= i < s.len() ==> (#[trigger] s[i]).completed,
    decreases s.len(),
{
    reveal_with_fuel(Seq::filter, 1);
    if s.len() > 0 {
        let t = s.drop_last();
        lemma_no_active_means_all_completed(t);
        if visible(s, Filter::Active).len() == 0 {
            assert forall|i: int| 0 <= i < s.len() implies (#[trigger] s[i]).completed by {
                if i < s.len() - 1 {
                    assert(s[i] == t[i]);
                }
            }
        } else {
            if s.last().completed {
                let i = choose|i: int| 0 <= i < t.len() && !(#[trigger] t[i]).completed;
                assert(s[i] == t[i]);
            }
        }
    }
}

/// The list is all completed exactly when it is not empty and no todo is active:
/// the toggle-all checkbox is ticked exactly when "0 items left" shows.
pub proof fn lemma_all_done_iff_none_active(s: Seq<TodoView>)
    ensures
        all_done(s) <==> (s.len() > 0 && visible(s, Filter::Active).len() == 0),
{
    lemma_no_active_means_all_completed(s);
}

/// Each link of the filter bar leads, through the router, to its own filter.
pub proof fn lemma_link_selects_its_filter(f: Filter)
    ensures
        hash_filter(f.link_hash()) == f,
{
    reveal_strlit("#/");
    reveal_strlit("#/active");
    reveal_strlit("#/completed");
    assert("#/"@.len() != "#/active"@.len());
    assert("#/"@.len() != "#/completed"@.len());
    assert("#/active"@.len() != "#/completed"@.len());
}

/// The client state: the todos and the selected filter.
pub struct TodoState {
    pub todos: Vec<Todo>,
    pub filter: Filter,
}

/// The mathematical value of a [`TodoState`].
pub struct TodoStateView {
    pub todos: Seq<TodoView>,
    pub filter: Filter,
}

impl View for TodoState {
    type V = TodoStateView;

    open spec fn view(&self) -> TodoStateView {
        TodoStateView { todos: views(self.todos@), filter: self.filter }
    }
}

proof fn lemma_visible_step(s: Seq<TodoView>, f: Filter, i: int)
    requires
        0 <= i < s.len(),
    ensures
        visible(s.take(i + 1), f) == if f.admits(s[i]) {
            visible(s.take(i), f).push(s[i])
        } else {
            visible(s.take(i), f)
        },
{
    reveal_with_fuel(Seq::filter, 1);
    assert(s.take(i + 1).drop_last() =~= s.take(i));
    assert(s.take(i + 1).last() == s[i]);
}

fn count_matching(todos: &Vec<Todo>, f: Filter) -> (r: usize)
    ensures
        r == visible(views(todos@), f).len(),
{
    let ghost s = views(todos@);
    let n = todos.len();
    let mut count: usize = 0;
    let mut i: usize = 0;
    while i < n
        invariant
            n == todos@.len(),
            s == views(todos@),
            i <= n,
            count == visible(s.take(i as int), f).len(),
            count <= i,
        decreases n - i,
    {
        proof {
            lemma_visible_step(s, f, i as int);
        }
        if f.matches(&todos[i]) {
            count = count + 1;
        }
        i = i + 1;
    }
    assert(s.take(n as int) =~= s);
    count
}

impl TodoState {
    /// An empty list, showing all todos.
    pub fn new() -> (r: TodoState)
        ensures
            r@.todos == Seq::<TodoView>::empty(),
            r@.filter == Filter::All,
    {
        let r = TodoState { todos: Vec::new(), filter: Filter::All };
        assert(r@.todos =~= Seq::<TodoView>::empty());
        r
    }

    /// How many todos are not completed.
    pub fn active_count(&self) -> (r: usize)
        ensures
            r == visible(self@.todos, Filter::Active).len(),
    {
        count_matching(&self.todos, Filter::Active)
    }

    /// How many todos are completed.
    pub fn completed_count(&self) -> (r: usize)
        ensures
            r == visible(self@.todos, Filter::Completed).len(),
    {
        count_matching(&self.todos, Filter::Completed)
    }

    /// Whether there is a todo and every todo is completed.
    pub fn all_completed(&self) -> (r: bool)
        ensures
            r == all_done(self@.todos),
    {
        let ghost s = self@.todos;
        let n = self.todos.len();
        if n == 0 {
            return false;
        }
        let mut i: usize = 0;
        while i < n
            invariant
                n == self.todos@.len(),
                s == views(self.todos@),
                i <= n,
                forall|k: int| 0 <= k < i ==> (#[trigger] s[k]).completed,
            decreases n - i,
        {
            if !self.todos[i].completed {
                assert(!s[i as int].completed);
                return false;
            }
            i = i + 1;
        }
        true
    }

    /// The todos that pass the selected filter, in list order.
    pub fn filtered_todos(&self) -> (r: Vec<Todo>)
        ensures
            views(r@) == visible(self@.todos, self@.filter),
    {
        let ghost s = self@.todos;
        let f = self.filter;
        let n = self.todos.len();
        let mut out: Vec<Todo> = Vec::new();
        let mut i: usize = 0;
        while i < n
            invariant
                n == self.todos@.len(),
                s == views(self.todos@),
                f == self.filter,
                i <= n,
                views(out@) == visible(s.take(i as int), f),
            decreases n - i,
        {
            proof {
                lemma_visible_step(s, f, i as int);
            }
            if f.matches(&self.todos[i]) {
                let t = self.todos[i].clone();
                out.push(t);
                assert(views(out@) =~= visible(s.take(i as int), f).push(s[i as int]));
            }
            i = i + 1;
        }
        assert(s.take(n as int) =~= s);
        out
    }
}

} // verus!
