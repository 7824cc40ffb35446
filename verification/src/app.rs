//! The application state and its operations.

use crate::model::{first_page_named, has_page, is_first_page_named, AppView, InputMode};
use crate::nav::{advance, reorder, retreat, Direction};
use crate::selection::Selection;
use crate::todo::{
    lemma_pages_view_update, lemma_todos_view_reordered, pages_view, todos_view, Timestamp, Todo,
    TodoPage, TodoPageView,
};
use vstd::prelude::*;

verus! {

/// The whole state of the application: the pages, which page and item are
/// selected, and what is being typed.
pub struct App {
    pub pages: Vec<TodoPage>,
    pub current_page_index: usize,
    /// The selected item of the current page.
    pub state: Selection,
    /// The page marked in the page selector.
    pub page_select_state: Selection,
    pub input_mode: InputMode,
    pub current_input: String,
    /// While editing: whether an existing item is being changed.
    pub edit_mode: bool,
    pub picking_mode: bool,
    pub show_page_selector: bool,
}

impl View for App {
    type V = AppView;

    open spec fn view(&self) -> AppView {
        AppView {
            pages: pages_view(self.pages@),
            current_page_index: self.current_page_index as int,
            selected: self.state@,
            page_selected: self.page_select_state@,
            input_mode: self.input_mode,
            current_input: self.current_input@,
            edit_mode: self.edit_mode,
            picking_mode: self.picking_mode,
            show_page_selector: self.show_page_selector,
        }
    }
}

impl App {
    /// The state is one that the operations keep: see `AppView::well_formed`.
    pub open spec fn well_formed(&self) -> bool {
        self@.well_formed()
    }

    /// Tells whether the state is well formed.
    pub fn is_well_formed(&self) -> (ok: bool)
        ensures
            ok == self.well_formed(),
    {
        if self.pages.len() == 0 || self.current_page_index >= self.pages.len() {
            return false;
        }
        let n = self.pages[self.current_page_index].todos.len();
        let item_fits = match self.state.selected {
            Some(i) => i < n,
            None => n == 0,
        };
        let page_fits = match self.page_select_state.selected {
            Some(i) => i < self.pages.len(),
            None => true,
        };
        item_fits && page_fits
    }

    /// The state at start: one empty page named "Default", normal mode,
    /// nothing typed.
    pub fn new() -> (app: App)
        ensures
            app@ == AppView::initial(),
            app.well_formed(),
    {
        let mut pages = Vec::new();
        pages.push(TodoPage::new("Default".to_owned()));
        let app = App {
            pages,
            current_page_index: 0,
            state: Selection { selected: None },
            page_select_state: Selection { selected: Some(0) },
            input_mode: InputMode::Normal,
            current_input: String::new(),
            edit_mode: false,
            picking_mode: false,
            show_page_selector: false,
        };
        assert(app@.pages =~= AppView::initial().pages);
        app
    }

    /// The current page.
    pub fn current_page(&self) -> (page: &TodoPage)
        requires
            self.current_page_index < self.pages.len(),
        ensures
            *page == self.pages[self.current_page_index as int],
            page@ == self@.pages[self@.current_page_index],
    {
        &self.pages[self.current_page_index]
    }

    /// The items of the current page.
    pub fn todos(&self) -> (todos: &Vec<Todo>)
        requires
            self.current_page_index < self.pages.len(),
        ensures
            *todos == self.pages[self.current_page_index as int].todos,
            todos_view(todos@) == self@.current_todos(),
    {
        &self.current_page().todos
    }

    /// The items of the current page, to be changed in place.
    pub fn todos_mut(&mut self) -> (todos: &mut Vec<Todo>)
        requires
            old(self).current_page_index < old(self).pages.len(),
        ensures
            *todos == old(self).pages[old(self).current_page_index as int].todos,
            *final(self) == (App {
                pages: final(self).pages,
                ..*old(self)
            }),
            final(self).pages@ == old(self).pages@.update(
                old(self).current_page_index as int,
                TodoPage {
                    todos: *final(todos),
                    ..old(self).pages[old(self).current_page_index as int]
                },
            ),
    {
        &mut self.pages[self.current_page_index].todos
    }

    /// Page `index` becomes current and marked, and its first item selected.
    pub(crate) fn enter_page(&mut self, index: usize)
        requires
            index < old(self).pages.len(),
        ensures
            final(self)@ == old(self)@.switch_to(index as int),
            final(self)@.well_formed(),
    {
        self.current_page_index = index;
        self.page_select_state.select(Some(index));
        if self.pages[index].todos.len() > 0 {
            self.state.select(Some(0));
        } else {
            self.state.select(None);
        }
    }

    /// The index of the first page named `name`, if there is one.
    fn find_page(&self, name: &str) -> (found: Option<usize>)
        ensures
            match found {
                Some(i) => is_first_page_named(self@.pages, name@, i as int),
                None => !has_page(self@.pages, name@),
            },
    {
        let wanted = name.to_owned();
        let mut i: usize = 0;
        while i < self.pages.len()
            invariant
                i <= self.pages.len(),
                wanted@ == name@,
                forall|j: int|
                    #![trigger self@.pages[j]]
                    0 <= j < i ==> self@.pages[j].name != name@,
            decreases self.pages.len() - i,
        {
            if self.pages[i].name == wanted {
                return Some(i);
            }
            i += 1;
        }
        None
    }

    /// Appends a new empty page named `name` and makes it current. A name
    /// that is empty or already borne by a page is passed over in silence:
    /// then nothing changes.
    pub fn add_page(&mut self, name: String)
        ensures
            final(self)@ == old(self)@.add_page(name@),
            old(self).well_formed() ==> final(self).well_formed(),
            name@.len() > 0 && !has_page(old(self)@.pages, name@) ==> final(self).well_formed(),
    {
        if name.as_str().is_empty() {
            return;
        }
        if self.find_page(name.as_str()).is_some() {
            return;
        }
        let ghost before = self.pages@;
        self.pages.push(TodoPage::new(name));
        assert(pages_view(self.pages@) =~= pages_view(before).push(TodoPageView::empty(name@)));
        let last = self.pages.len() - 1;
        self.enter_page(last);
    }

    /// Makes the first page named `name` current and selects its first
    /// item. Returns whether there is such a page; if not, nothing changes.
    pub fn select_page_by_name(&mut self, name: &str) -> (found: bool)
        ensures
            found == has_page(old(self)@.pages, name@),
            final(self)@ == old(self)@.select_page_by_name(name@),
            found || old(self).well_formed() ==> final(self).well_formed(),
    {
        match self.find_page(name) {
            Some(index) => {
                proof {
                    lemma_first_page_named(self@.pages, name@, index as int);
                }
                self.enter_page(index);
                true
            },
            None => false,
        }
    }

    /// Makes the page named `name` current, adding it first if there is
    /// none. An empty name that no page bears changes nothing.
    pub fn create_or_select_page(&mut self, name: &str)
        ensures
            final(self)@ == old(self)@.create_or_select_page(name@),
            name@.len() > 0 || old(self).well_formed() ==> final(self).well_formed(),
    {
        if !self.select_page_by_name(name) {
            self.add_page(name.to_owned());
        }
    }

    /// The page that a step in `direction` from the page marked in the
    /// selector arrives at.
    pub(crate) fn page_target(&self, direction: Direction) -> (target: usize)
        requires
            self.well_formed(),
        ensures
            target == self@.page_target(direction),
            target < self.pages.len(),
    {
        match self.page_select_state.selected {
            Some(i) => match direction {
                Direction::Forward => advance(i, self.pages.len()),
                Direction::Backward => retreat(i, self.pages.len()),
            },
            None => 0,
        }
    }

    /// Makes the page after the current one current, going round, marks it
    /// in the selector and selects its first item.
    pub fn next_page(&mut self)
        requires
            old(self).current_page_index < old(self).pages.len(),
        ensures
            final(self)@ == old(self)@.next_page(),
            final(self).well_formed(),
    {
        let target = advance(self.current_page_index, self.pages.len());
        self.enter_page(target);
    }

    /// Makes the page before the current one current, going round, marks it
    /// in the selector and selects its first item.
    pub fn previous_page(&mut self)
        requires
            old(self).current_page_index < old(self).pages.len(),
        ensures
            final(self)@ == old(self)@.previous_page(),
            final(self).well_formed(),
    {
        let target = retreat(self.current_page_index, self.pages.len());
        self.enter_page(target);
    }

    /// Opens the page selector with the current page marked, or closes it
    /// if it is open.
    pub fn toggle_page_selector(&mut self)
        ensures
            final(self)@ == old(self)@.toggle_page_selector(),
            old(self).well_formed() ==> final(self).well_formed(),
    {
        self.show_page_selector = !self.show_page_selector;
        if self.show_page_selector {
            self.input_mode = InputMode::PageSelect;
            self.page_select_state.select(Some(self.current_page_index));
        } else {
            self.input_mode = InputMode::Normal;
        }
    }

    /// Turns picking mode on or off. On an empty page there is nothing to
    /// pick, and nothing changes.
    pub fn toggle_picking_mode(&mut self)
        requires
            old(self).current_page_index < old(self).pages.len(),
        ensures
            final(self)@ == old(self)@.toggle_picking_mode(),
            old(self).well_formed() ==> final(self).well_formed(),
    {
        if self.pages[self.current_page_index].todos.len() > 0 {
            self.picking_mode = !self.picking_mode;
        }
    }

    /// Moves the selection one step in `direction`, going round. In picking
    /// mode the selected item is carried along. Does nothing on an empty
    /// page.
    pub fn navigate(&mut self, direction: Direction)
        requires
            old(self).well_formed(),
        ensures
            final(self)@ == old(self)@.navigate(direction),
            final(self).well_formed(),
    {
        let n = self.todos().len();
        if n == 0 {
            return;
        }
        match self.state.selected {
            Some(i) => {
                let ghost before = self.pages@;
                let ghost page = before[self.current_page_index as int];
                let target = if self.picking_mode {
                    reorder(&mut self.pages[self.current_page_index].todos, i, direction)
                } else {
                    match direction {
                        Direction::Forward => advance(i, n),
                        Direction::Backward => retreat(i, n),
                    }
                };
                self.state.select(Some(target));
                proof {
                    if self.picking_mode {
                        lemma_todos_view_reordered(page.todos@, i as int, direction);
                        lemma_pages_view_update(
                            before,
                            self.current_page_index as int,
                            self.pages[self.current_page_index as int],
                        );
                    } else {
                        assert(self.pages@ =~= before);
                    }
                }
            },
            None => {
                self.state.select(Some(0));
            },
        }
    }

    /// Moves the selection to the next item, going round; in picking mode
    /// the selected item moves with it.
    pub fn next(&mut self)
        requires
            old(self).well_formed(),
        ensures
            final(self)@ == old(self)@.next(),
            final(self).well_formed(),
    {
        self.navigate(Direction::Forward);
    }

    /// Moves the selection to the previous item, going round; in picking
    /// mode the selected item moves with it.
    pub fn previous(&mut self)
        requires
            old(self).well_formed(),
        ensures
            final(self)@ == old(self)@.previous(),
            final(self).well_formed(),
    {
        self.navigate(Direction::Backward);
    }

    /// Appends `todo` to the current page and empties the input. If nothing
    /// was selected, the first item is.
    fn store_new_todo(&mut self, todo: Todo)
        requires
            old(self).well_formed(),
            todo@.description == old(self)@.current_input,
            !todo@.completed,
        ensures
            final(self)@ == old(self)@.add_todo(todo.created_at),
            final(self).well_formed(),
    {
        let ghost before = self.pages@;
        let ghost page = before[self.current_page_index as int];
        self.pages[self.current_page_index].todos.push(todo);
        self.current_input = String::new();
        if self.state.selected.is_none() {
            self.state.select(Some(0));
        }
        proof {
            assert(todos_view(page.todos@.push(todo)) =~= todos_view(page.todos@).push(todo@));
            lemma_pages_view_update(
                before,
                self.current_page_index as int,
                self.pages[self.current_page_index as int],
            );
        }
    }

    /// Appends an open item with the typed text, made at `created_at`, to
    /// the current page, and empties the input. If nothing was selected,
    /// the new item is.
    pub fn add_todo_at(&mut self, created_at: Timestamp)
        requires
            old(self).well_formed(),
        ensures
            final(self)@ == old(self)@.add_todo(created_at),
            final(self).well_formed(),
    {
        let todo = Todo::with_timestamp(self.current_input.clone(), created_at);
        self.store_new_todo(todo);
    }

    /// Appends an open item with the typed text, stamped with the current
    /// local time, to the current page, and empties the input. If nothing
    /// was selected, the new item is.
    pub fn add_todo(&mut self)
        requires
            old(self).well_formed(),
        ensures
            exists|now: Timestamp| final(self)@ == #[trigger] old(self)@.add_todo(now),
            final(self).well_formed(),
    {
        let todo = Todo::new(self.current_input.clone());
        let ghost now = todo.created_at;
        self.store_new_todo(todo);
        assert(self@ == old(self)@.add_todo(now));
    }

    /// Removes the selected item. The selection stays on the same index,
    /// steps back by one if that index is now beyond the end, and is
    /// nothing if the page is now empty.
    pub fn delete_todo(&mut self)
        requires
            old(self).well_formed(),
        ensures
            final(self)@ == old(self)@.delete_todo(),
            final(self).well_formed(),
    {
        if let Some(selected) = self.state.selected {
            let ghost before = self.pages@;
            let ghost page = before[self.current_page_index as int];
            self.pages[self.current_page_index].todos.remove(selected);
            let rest = self.pages[self.current_page_index].todos.len();
            if rest == 0 {
                self.state.select(None);
            } else if selected == rest {
                self.state.select(Some(selected - 1));
            }
            proof {
                assert(todos_view(page.todos@.remove(selected as int)) =~= todos_view(
                    page.todos@,
                ).remove(selected as int));
                lemma_pages_view_update(
                    before,
                    self.current_page_index as int,
                    self.pages[self.current_page_index as int],
                );
            }
        }
    }

    /// Flips the completion flag of the selected item. If the item was open,
    /// the selection moves on to the next item, going round; the items keep
    /// their places.
    pub fn toggle_todo(&mut self)
        requires
            old(self).well_formed(),
        ensures
            final(self)@ == old(self)@.toggle_todo(),
            final(self).well_formed(),
    {
        if let Some(selected) = self.state.selected {
            let ghost before = self.pages@;
            let ghost page = before[self.current_page_index as int];
            let n = self.pages[self.current_page_index].todos.len();
            let was_completed = self.pages[self.current_page_index].todos[selected].completed;
            self.pages[self.current_page_index].todos[selected].completed = !was_completed;
            if !was_completed {
                self.state.select(Some(advance(selected, n)));
            }
            proof {
                let after = self.pages[self.current_page_index as int];
                assert(todos_view(after.todos@) =~= todos_view(page.todos@).update(
                    selected as int,
                    page.todos@[selected as int]@.toggled(),
                ));
                lemma_pages_view_update(before, self.current_page_index as int, after);
            }
        }
    }

    /// Begins editing the selected item: its text becomes the input.
    pub fn start_editing(&mut self)
        requires
            old(self).well_formed(),
        ensures
            final(self)@ == old(self)@.start_editing(),
            final(self).well_formed(),
    {
        if let Some(selected) = self.state.selected {
            self.current_input =
            self.pages[self.current_page_index].todos[selected].description.clone();
            self.input_mode = InputMode::Editing;
            self.edit_mode = true;
        }
    }

    /// Gives the selected item the typed text and empties the input.
    pub fn update_todo(&mut self)
        requires
            old(self).well_formed(),
        ensures
            final(self)@ == old(self)@.update_todo(),
            final(self).well_formed(),
    {
        if let Some(selected) = self.state.selected {
            let ghost before = self.pages@;
            let ghost page = before[self.current_page_index as int];
            let text = self.current_input.clone();
            self.current_input = String::new();
            self.pages[self.current_page_index].todos[selected].description = text;
            proof {
                let after = self.pages[self.current_page_index as int];
                assert(todos_view(after.todos@) =~= todos_view(page.todos@).update(
                    selected as int,
                    page.todos@[selected as int]@.described(old(self)@.current_input),
                ));
                lemma_pages_view_update(before, self.current_page_index as int, after);
            }
        }
    }

    /// The names of the pages, in order.
    pub fn page_names(&self) -> (names: Vec<String>)
        ensures
            names.len() == self.pages.len(),
            forall|i: int| 0 <= i < names.len() ==> names[i]@ == self@.pages[i].name,
    {
        let mut names: Vec<String> = Vec::new();
        let mut i: usize = 0;
        while i < self.pages.len()
            invariant
                i <= self.pages.len(),
                names.len() == i,
                forall|j: int| 0 <= j < i ==> names[j]@ == self@.pages[j].name,
            decreases self.pages.len() - i,
        {
            names.push(self.pages[i].name.clone());
            i += 1;
        }
        names
    }
}

/// The first page that bears a name is the one that `first_page_named` gives.
pub proof fn lemma_first_page_named(pages: Seq<TodoPageView>, name: Seq<char>, i: int)
    requires
        is_first_page_named(pages, name, i),
    ensures
        has_page(pages, name),
        first_page_named(pages, name) == i,
{
    let chosen = first_page_named(pages, name);
    assert(is_first_page_named(pages, name, chosen));
    assert(pages[i].name == name);
    assert(pages[chosen].name == name);
}

} // verus!
