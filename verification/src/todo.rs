//! Items, pages and the clock that stamps new items.

use crate::nav::{reordered, Direction};
use chrono::Local;
use vstd::prelude::*;

verus! {

/// A point in time as plain numbers: whole seconds since the Unix epoch, the
/// nanoseconds within that second, and the offset of local time from UTC in
/// seconds. The list logic carries it along and never looks into it.
#[derive(Clone, Copy, Debug, PartialEq, Eq, Structural)]
pub struct Timestamp {
    pub seconds: i64,
    pub nanoseconds: u32,
    pub offset_seconds: i32,
}

/// Reads the clock with `chrono::Local::now` and takes the result apart with
/// `DateTime::timestamp`, `DateTime::timestamp_subsec_nanos` and
/// `FixedOffset::local_minus_utc`. The result depends on the clock and on the
/// time zone of the machine, so nothing is promised about it.
#[verifier::external_body]
fn current_time() -> Timestamp {
    let now = Local::now();
    Timestamp {
        seconds: now.timestamp(),
        nanoseconds: now.timestamp_subsec_nanos(),
        offset_seconds: now.offset().local_minus_utc(),
    }
}

/// A single entry of a list.
#[derive(Clone, Debug)]
pub struct Todo {
    pub description: String,
    pub completed: bool,
    pub created_at: Timestamp,
}

/// What an item is, mathematically.
pub struct TodoView {
    pub description: Seq<char>,
    pub completed: bool,
    pub created_at: Timestamp,
}

impl View for Todo {
    type V = TodoView;

    open spec fn view(&self) -> TodoView {
        TodoView {
            description: self.description@,
            completed: self.completed,
            created_at: self.created_at,
        }
    }
}

impl TodoView {
    /// The item as it is when first made: open, with the given text and stamp.
    pub open spec fn fresh(description: Seq<char>, created_at: Timestamp) -> TodoView {
        TodoView { description, completed: false, created_at }
    }

    /// The same item with its completion flag flipped.
    pub open spec fn toggled(self) -> TodoView {
        TodoView { completed: !self.completed, ..self }
    }

    /// The same item with another text.
    pub open spec fn described(self, description: Seq<char>) -> TodoView {
        TodoView { description, ..self }
    }
}

impl Todo {
    /// Builds an open item with the given text and creation time.
    pub fn with_timestamp(description: String, created_at: Timestamp) -> (item: Todo)
        ensures
            item@ == TodoView::fresh(description@, created_at),
    {
        Todo { description, completed: false, created_at }
    }

    /// Builds an open item with the given text, stamped with the current local
    /// time. The text is stored as it is given.
    pub fn new(description: String) -> (item: Todo)
        ensures
            item@ == TodoView::fresh(description@, item.created_at),
    {
        Todo::with_timestamp(description, current_time())
    }
}

/// The views of a sequence of items, in order.
pub open spec fn todos_view(items: Seq<Todo>) -> Seq<TodoView> {
    Seq::new(items.len(), |i: int| items[i]@)
}

/// Carrying an item along and taking the views can be done in either order.
pub proof fn lemma_todos_view_reordered(items: Seq<Todo>, i: int, direction: Direction)
    requires
        0 <= i < items.len(),
    ensures
        todos_view(reordered(items, i, direction)) == reordered(todos_view(items), i, direction),
{
    assert(todos_view(reordered(items, i, direction)) =~= reordered(
        todos_view(items),
        i,
        direction,
    ));
}

/// A named list of items. The order of `todos` is the order shown and stored.
#[derive(Clone, Debug)]
pub struct TodoPage {
    pub name: String,
    pub todos: Vec<Todo>,
}

/// What a page is, mathematically.
pub struct TodoPageView {
    pub name: Seq<char>,
    pub todos: Seq<TodoView>,
}

impl View for TodoPage {
    type V = TodoPageView;

    open spec fn view(&self) -> TodoPageView {
        TodoPageView { name: self.name@, todos: todos_view(self.todos@) }
    }
}

impl TodoPageView {
    /// A page of that name with nothing on it.
    pub open spec fn empty(name: Seq<char>) -> TodoPageView {
        TodoPageView { name, todos: Seq::empty() }
    }

    /// The same page holding other items.
    pub open spec fn with_todos(self, todos: Seq<TodoView>) -> TodoPageView {
        TodoPageView { todos, ..self }
    }
}

impl TodoPage {
    /// Builds a page of that name with nothing on it.
    pub fn new(name: String) -> (page: TodoPage)
        ensures
            page@ == TodoPageView::empty(name@),
    {
        let page = TodoPage { name, todos: Vec::new() };
        assert(page@.todos =~= Seq::empty());
        page
    }
}

/// The views of a sequence of pages, in order.
pub open spec fn pages_view(pages: Seq<TodoPage>) -> Seq<TodoPageView> {
    Seq::new(pages.len(), |i: int| pages[i]@)
}

/// Replacing one page replaces its view and no other.
pub proof fn lemma_pages_view_update(pages: Seq<TodoPage>, i: int, page: TodoPage)
    requires
        0 <= i < pages.len(),
    ensures
        pages_view(pages.update(i, page)) == pages_view(pages).update(i, page@),
{
    assert(pages_view(pages.update(i, page)) =~= pages_view(pages).update(i, page@));
}

} // verus!
