//! The state of the application as a mathematical value, and what each
//! operation makes of it. The executable code in the other modules is held to
//! these definitions.

use crate::nav::{next_index, reordered, target_index, Direction};
use crate::todo::{Timestamp, TodoPageView, TodoView};
use vstd::prelude::*;

verus! {

/// What the keys currently mean.
#[derive(Clone, Copy, Debug, PartialEq, Eq, Structural)]
pub enum InputMode {
    Normal,
    Editing,
    PageSelect,
}

/// What was found where the pages are kept between runs.
pub enum StoredView {
    /// Nothing has been stored yet.
    Missing,
    /// A list of pages.
    Pages(Seq<TodoPageView>),
    /// A bare list of items, as stored before there were pages.
    LegacyItems(Seq<TodoView>),
    /// Something that is neither.
    Unreadable,
}

/// The name of the page that exists when no other does.
pub open spec fn default_page_name() -> Seq<char> {
    "Default"@
}

/// Whether some page bears `name`. Names are compared exactly.
pub open spec fn has_page(pages: Seq<TodoPageView>, name: Seq<char>) -> bool {
    exists|i: int| #![trigger pages[i]] 0 <= i < pages.len() && pages[i].name == name
}

/// Whether `i` is the first page that bears `name`.
pub open spec fn is_first_page_named(pages: Seq<TodoPageView>, name: Seq<char>, i: int) -> bool {
    &&& 0 <= i < pages.len()
    &&& pages[i].name == name
    &&& forall|j: int| #![trigger pages[j]] 0 <= j < i ==> pages[j].name != name
}

/// The index of the first page that bears `name`, where there is one.
pub open spec fn first_page_named(pages: Seq<TodoPageView>, name: Seq<char>) -> int {
    choose|i: int| is_first_page_named(pages, name, i)
}

/// Whether every page has a name and no two pages share one.
pub open spec fn names_valid(pages: Seq<TodoPageView>) -> bool {
    &&& forall|i: int| #![trigger pages[i]] 0 <= i < pages.len() ==> pages[i].name.len() > 0
    &&& forall|i: int, j: int|
        #![trigger pages[i], pages[j]]
        0 <= i < j < pages.len() ==> pages[i].name != pages[j].name
}

/// The selection a list of `n` items gets when it is entered: its first item,
/// or nothing if it has none.
pub open spec fn first_or_none(n: int) -> Option<int> {
    if n > 0 {
        Some(0)
    } else {
        None
    }
}

/// The selection nearest to `selected` that fits a list of `n` items: nothing
/// for an empty list, the last item for an index beyond the end, the first
/// item where nothing was selected.
pub open spec fn settled(selected: Option<int>, n: int) -> Option<int> {
    if n <= 0 {
        None
    } else {
        match selected {
            Some(i) => if i < n {
                Some(i)
            } else {
                Some(n - 1)
            },
            None => Some(0),
        }
    }
}

/// Whether `selected` fits a list of `n` items: an index into it, or nothing
/// exactly when the list is empty.
pub open spec fn selection_fits(selected: Option<int>, n: int) -> bool {
    match selected {
        Some(i) => 0 <= i < n,
        None => n == 0,
    }
}

/// The pages that a stored document stands for. There is always at least one:
/// where nothing usable was stored, a single empty page with the default name.
pub open spec fn loaded_pages(stored: StoredView) -> Seq<TodoPageView> {
    match stored {
        StoredView::Pages(pages) => if pages.len() > 0 {
            pages
        } else {
            seq![TodoPageView::empty(default_page_name())]
        },
        StoredView::LegacyItems(todos) => seq![
            TodoPageView { name: default_page_name(), todos },
        ],
        _ => seq![TodoPageView::empty(default_page_name())],
    }
}

/// What a key press asks for, once the input mode has given it its meaning.
#[derive(Clone, Copy, Debug, PartialEq, Eq, Structural)]
pub enum Event {
    Quit,
    StartAdd,
    StartEdit,
    Delete,
    Toggle,
    TogglePicking,
    OpenPageSelector,
    NextPage,
    PreviousPage,
    Navigate(Direction),
    Confirm,
    Cancel,
    Character(char),
    Backspace,
    NewPage,
    DeletePage,
}

/// A key of the keyboard, as far as the application tells keys apart.
#[derive(Clone, Copy, Debug, PartialEq, Eq, Structural)]
pub enum Key {
    Char(char),
    Enter,
    Esc,
    Backspace,
    Tab,
    BackTab,
    Up,
    Down,
    /// Any other key.
    Other,
}

/// What pressing `key` asks for in `mode`, if anything.
pub open spec fn classified(mode: InputMode, key: Key) -> Option<Event> {
    match mode {
        InputMode::Normal => match key {
            Key::Char('q') => Some(Event::Quit),
            Key::Char('e') => Some(Event::StartEdit),
            Key::Char('a') => Some(Event::StartAdd),
            Key::Char('d') => Some(Event::Delete),
            Key::Char(' ') => Some(Event::Toggle),
            Key::Char('p') => Some(Event::TogglePicking),
            Key::Char('P') => Some(Event::OpenPageSelector),
            Key::Tab => Some(Event::NextPage),
            Key::BackTab => Some(Event::PreviousPage),
            Key::Down | Key::Char('j') => Some(Event::Navigate(Direction::Forward)),
            Key::Up | Key::Char('k') => Some(Event::Navigate(Direction::Backward)),
            _ => None,
        },
        InputMode::Editing => match key {
            Key::Enter => Some(Event::Confirm),
            Key::Char(c) => Some(Event::Character(c)),
            Key::Backspace => Some(Event::Backspace),
            Key::Esc => Some(Event::Cancel),
            _ => None,
        },
        InputMode::PageSelect => match key {
            Key::Enter => Some(Event::Confirm),
            Key::Char('n') | Key::Char('a') => Some(Event::NewPage),
            Key::Char('d') => Some(Event::DeletePage),
            Key::Down | Key::Char('j') => Some(Event::Navigate(Direction::Forward)),
            Key::Up | Key::Char('k') => Some(Event::Navigate(Direction::Backward)),
            Key::Esc | Key::Char('P') => Some(Event::Cancel),
            _ => None,
        },
    }
}

/// What the caller has to do after an event has been applied.
#[derive(Clone, Copy, Debug, PartialEq, Eq, Structural)]
pub enum Action {
    /// Draw the state and wait for the next key.
    Continue,
    /// Store the pages and leave.
    SaveAndQuit,
}

/// The whole state of the application.
pub struct AppView {
    pub pages: Seq<TodoPageView>,
    pub current_page_index: int,
    /// The selected item of the current page.
    pub selected: Option<int>,
    /// The page marked in the page selector.
    pub page_selected: Option<int>,
    pub input_mode: InputMode,
    pub current_input: Seq<char>,
    /// While editing: whether an existing item is being changed.
    pub edit_mode: bool,
    pub picking_mode: bool,
    pub show_page_selector: bool,
}

impl AppView {
    /// There is at least one page, the current page is one of them, the
    /// selected item is an item of the current page (and nothing is selected
    /// only if that page is empty), and the page marked in the selector, if
    /// any, is one of the pages.
    pub open spec fn well_formed(self) -> bool {
        &&& self.pages.len() > 0
        &&& 0 <= self.current_page_index < self.pages.len()
        &&& selection_fits(self.selected, self.current_todos().len() as int)
        &&& self.page_selected matches Some(i) ==> 0 <= i < self.pages.len()
    }

    /// The flags agree with the input mode: the selector is shown in page
    /// selection and hidden in normal mode, and an existing item is under
    /// edit only while editing outside the selector.
    pub open spec fn modes_consistent(self) -> bool {
        match self.input_mode {
            InputMode::Normal => !self.show_page_selector && !self.edit_mode,
            InputMode::PageSelect => self.show_page_selector && !self.edit_mode,
            InputMode::Editing => !(self.show_page_selector && self.edit_mode),
        }
    }

    /// The items of the current page.
    pub open spec fn current_todos(self) -> Seq<TodoView> {
        self.pages[self.current_page_index].todos
    }

    /// The same state with the current page holding `todos`.
    pub open spec fn with_current_todos(self, todos: Seq<TodoView>) -> AppView {
        AppView {
            pages: self.pages.update(
                self.current_page_index,
                self.pages[self.current_page_index].with_todos(todos),
            ),
            ..self
        }
    }

    /// The state at start: one empty page with the default name, normal
    /// mode, nothing typed.
    pub open spec fn initial() -> AppView {
        AppView {
            pages: seq![TodoPageView::empty(default_page_name())],
            current_page_index: 0,
            selected: None,
            page_selected: Some(0),
            input_mode: InputMode::Normal,
            current_input: Seq::empty(),
            edit_mode: false,
            picking_mode: false,
            show_page_selector: false,
        }
    }

    /// Page `index` becomes the current page and the page marked in the
    /// selector; its first item is selected.
    pub open spec fn switch_to(self, index: int) -> AppView {
        AppView {
            current_page_index: index,
            page_selected: Some(index),
            selected: first_or_none(self.pages[index].todos.len() as int),
            ..self
        }
    }

    /// A new empty page named `name` is appended and becomes current, unless
    /// `name` is empty or taken: then nothing changes.
    pub open spec fn add_page(self, name: Seq<char>) -> AppView {
        if name.len() == 0 || has_page(self.pages, name) {
            self
        } else {
            AppView {
                pages: self.pages.push(TodoPageView::empty(name)),
                ..self
            }.switch_to(self.pages.len() as int)
        }
    }

    /// The first page named `name` becomes current, if there is one.
    pub open spec fn select_page_by_name(self, name: Seq<char>) -> AppView {
        if has_page(self.pages, name) {
            self.switch_to(first_page_named(self.pages, name))
        } else {
            self
        }
    }

    /// The page named `name` becomes current; it is made first if it does
    /// not exist.
    pub open spec fn create_or_select_page(self, name: Seq<char>) -> AppView {
        if has_page(self.pages, name) {
            self.select_page_by_name(name)
        } else {
            self.add_page(name)
        }
    }

    /// The page that a step in `direction` from the page marked in the
    /// selector arrives at; page 0 if none is marked.
    pub open spec fn page_target(self, direction: Direction) -> int {
        match self.page_selected {
            Some(i) => target_index(i, self.pages.len() as int, direction),
            None => 0,
        }
    }

    /// The page after the current one, going round, becomes current.
    pub open spec fn next_page(self) -> AppView {
        self.switch_to(
            target_index(self.current_page_index, self.pages.len() as int, Direction::Forward),
        )
    }

    /// The page before the current one, going round, becomes current.
    pub open spec fn previous_page(self) -> AppView {
        self.switch_to(
            target_index(self.current_page_index, self.pages.len() as int, Direction::Backward),
        )
    }

    /// The page selector opens on the current page, or closes if it is open.
    pub open spec fn toggle_page_selector(self) -> AppView {
        if self.show_page_selector {
            AppView { show_page_selector: false, input_mode: InputMode::Normal, ..self }
        } else {
            AppView {
                show_page_selector: true,
                input_mode: InputMode::PageSelect,
                page_selected: Some(self.current_page_index),
                ..self
            }
        }
    }

    /// Picking mode goes on or off, unless the current page is empty: then
    /// nothing changes.
    pub open spec fn toggle_picking_mode(self) -> AppView {
        if self.current_todos().len() == 0 {
            self
        } else {
            AppView { picking_mode: !self.picking_mode, ..self }
        }
    }

    /// The selection moves one step in `direction`, going round; in picking
    /// mode the selected item is carried along. Nothing happens on an empty
    /// page.
    pub open spec fn navigate(self, direction: Direction) -> AppView {
        let todos = self.current_todos();
        if todos.len() == 0 {
            self
        } else {
            match self.selected {
                Some(i) => {
                    let target = Some(target_index(i, todos.len() as int, direction));
                    if self.picking_mode {
                        AppView {
                            selected: target,
                            ..self.with_current_todos(reordered(todos, i, direction))
                        }
                    } else {
                        AppView { selected: target, ..self }
                    }
                },
                None => AppView { selected: Some(0), ..self },
            }
        }
    }

    /// The state after `k` steps in `direction`.
    pub open spec fn navigate_times(self, direction: Direction, k: nat) -> AppView
        decreases k,
    {
        if k == 0 {
            self
        } else {
            self.navigate_times(direction, (k - 1) as nat).navigate(direction)
        }
    }

    /// A step towards the end of the list.
    pub open spec fn next(self) -> AppView {
        self.navigate(Direction::Forward)
    }

    /// A step towards the start of the list.
    pub open spec fn previous(self) -> AppView {
        self.navigate(Direction::Backward)
    }

    /// `todo` is appended to the current page. If nothing was selected, the
    /// first item is.
    pub open spec fn append_todo(self, todo: TodoView) -> AppView {
        AppView {
            selected: match self.selected {
                Some(i) => Some(i),
                None => Some(0),
            },
            ..self.with_current_todos(self.current_todos().push(todo))
        }
    }

    /// An open item with the typed text, made at `created_at`, is appended to
    /// the current page, and the input is emptied.
    pub open spec fn add_todo(self, created_at: Timestamp) -> AppView {
        AppView {
            current_input: Seq::empty(),
            ..self.append_todo(TodoView::fresh(self.current_input, created_at))
        }
    }

    /// The selected item is removed. The selection stays on the same index,
    /// steps back by one if that index is now beyond the end, and is nothing
    /// if the page is now empty.
    pub open spec fn delete_todo(self) -> AppView {
        let todos = self.current_todos();
        match self.selected {
            Some(i) => if 0 <= i < todos.len() {
                let rest = todos.remove(i);
                AppView {
                    selected: if rest.len() == 0 {
                        None
                    } else if i == rest.len() {
                        Some(i - 1)
                    } else {
                        Some(i)
                    },
                    ..self.with_current_todos(rest)
                }
            } else {
                self
            },
            None => self,
        }
    }

    /// The selected item is the item of the current page at `index`.
    pub open spec fn select_item(self, index: int) -> AppView {
        AppView { selected: Some(index), ..self }
    }

    /// The completion flag of the selected item is flipped. If the item was
    /// open, the selection moves on to the next item, going round.
    pub open spec fn toggle_todo(self) -> AppView {
        let todos = self.current_todos();
        match self.selected {
            Some(i) => if 0 <= i < todos.len() {
                let flipped = self.with_current_todos(todos.update(i, todos[i].toggled()));
                if todos[i].completed {
                    flipped
                } else {
                    flipped.select_item(next_index(i, todos.len() as int))
                }
            } else {
                self
            },
            None => self,
        }
    }

    /// Editing of the selected item begins: its text becomes the input.
    pub open spec fn start_editing(self) -> AppView {
        let todos = self.current_todos();
        match self.selected {
            Some(i) => if 0 <= i < todos.len() {
                AppView {
                    current_input: todos[i].description,
                    input_mode: InputMode::Editing,
                    edit_mode: true,
                    ..self
                }
            } else {
                self
            },
            None => self,
        }
    }

    /// The typed text becomes the text of the selected item, and the input
    /// is emptied.
    pub open spec fn update_todo(self) -> AppView {
        let todos = self.current_todos();
        match self.selected {
            Some(i) => {
                let cleared = AppView { current_input: Seq::empty(), ..self };
                if 0 <= i < todos.len() {
                    cleared.with_current_todos(
                        todos.update(i, todos[i].described(self.current_input)),
                    )
                } else {
                    cleared
                }
            },
            None => self,
        }
    }

    /// The stored pages replace the pages, and the first page becomes
    /// current. Where nothing has been stored yet, nothing changes.
    pub open spec fn load_todos(self, stored: StoredView) -> AppView {
        match stored {
            StoredView::Missing => self,
            _ => AppView { pages: loaded_pages(stored), ..self }.switch_to(0),
        }
    }

    /// Typing of a new text begins with an empty input: a new item in normal
    /// mode, the name of a new page in the page selector.
    pub open spec fn start_adding(self) -> AppView {
        AppView {
            input_mode: InputMode::Editing,
            edit_mode: false,
            current_input: Seq::empty(),
            ..self
        }
    }

    /// `c` is appended to the input.
    pub open spec fn type_char(self, c: char) -> AppView {
        AppView { current_input: self.current_input.push(c), ..self }
    }

    /// The last character of the input is removed, if there is one.
    pub open spec fn erase_char(self) -> AppView {
        if self.current_input.len() == 0 {
            self
        } else {
            AppView { current_input: self.current_input.drop_last(), ..self }
        }
    }

    /// The input is committed. With an empty input nothing happens. Else,
    /// in this order: if a page name is being typed, that page is added; if
    /// an item is under edit, it gets the text; otherwise a new item is
    /// added. Then the input is empty and the mode is normal.
    pub open spec fn confirm_input(self, now: Timestamp) -> AppView {
        if self.current_input.len() == 0 {
            self
        } else if self.show_page_selector {
            AppView {
                current_input: Seq::empty(),
                show_page_selector: false,
                input_mode: InputMode::Normal,
                edit_mode: false,
                ..self.add_page(self.current_input)
            }
        } else if self.edit_mode {
            AppView { input_mode: InputMode::Normal, edit_mode: false, ..self.update_todo() }
        } else {
            AppView { input_mode: InputMode::Normal, edit_mode: false, ..self.add_todo(now) }
        }
    }

    /// The input is thrown away and the mode is normal.
    pub open spec fn cancel_input(self) -> AppView {
        AppView {
            current_input: Seq::empty(),
            input_mode: InputMode::Normal,
            edit_mode: false,
            show_page_selector: false,
            ..self
        }
    }

    /// The page marked in the selector becomes current and the selector
    /// closes. The item selection is kept as far as it fits the new page.
    pub open spec fn confirm_page(self) -> AppView {
        match self.page_selected {
            Some(i) => AppView {
                current_page_index: i,
                selected: settled(self.selected, self.pages[i].todos.len() as int),
                show_page_selector: false,
                input_mode: InputMode::Normal,
                ..self
            },
            None => self,
        }
    }

    /// The page marked in the selector is removed, unless it is the only
    /// one. The mark stays on the same index, or on the last page if that
    /// index is now beyond the end, and the marked page becomes current.
    pub open spec fn delete_selected_page(self) -> AppView {
        match self.page_selected {
            Some(i) => if self.pages.len() > 1 && 0 <= i < self.pages.len() {
                let rest = self.pages.remove(i);
                AppView { pages: rest, ..self }.switch_to(
                    if i >= rest.len() {
                        rest.len() - 1
                    } else {
                        i
                    },
                )
            } else {
                self
            },
            None => self,
        }
    }

    /// The mark in the page selector moves one step in `direction`, going
    /// round; it goes to page 0 if there was none.
    pub open spec fn selector_navigate(self, direction: Direction) -> AppView {
        AppView { page_selected: Some(self.page_target(direction)), ..self }
    }

    /// The page selector closes.
    pub open spec fn close_page_selector(self) -> AppView {
        AppView { show_page_selector: false, input_mode: InputMode::Normal, ..self }
    }

    /// The state after `event`, where `now` is the time at which it happens.
    /// An event that has no meaning in the current mode changes nothing.
    pub open spec fn apply(self, event: Event, now: Timestamp) -> AppView {
        match self.input_mode {
            InputMode::Normal => match event {
                Event::StartAdd => self.start_adding(),
                Event::StartEdit => if self.current_todos().len() > 0 {
                    self.start_editing()
                } else {
                    self
                },
                Event::Delete => self.delete_todo(),
                Event::Toggle => self.toggle_todo(),
                Event::TogglePicking => self.toggle_picking_mode(),
                Event::OpenPageSelector => self.toggle_page_selector(),
                Event::NextPage => self.next_page(),
                Event::PreviousPage => self.previous_page(),
                Event::Navigate(direction) => self.navigate(direction),
                _ => self,
            },
            InputMode::Editing => match event {
                Event::Confirm => self.confirm_input(now),
                Event::Character(c) => self.type_char(c),
                Event::Backspace => self.erase_char(),
                Event::Cancel => self.cancel_input(),
                _ => self,
            },
            InputMode::PageSelect => match event {
                Event::Confirm => self.confirm_page(),
                Event::NewPage => self.start_adding(),
                Event::DeletePage => self.delete_selected_page(),
                Event::Navigate(direction) => self.selector_navigate(direction),
                Event::Cancel => self.close_page_selector(),
                _ => self,
            },
        }
    }

    /// What the caller has to do after `event`: leave on a request to quit
    /// in normal mode, go on otherwise.
    pub open spec fn action(self, event: Event) -> Action {
        if self.input_mode == InputMode::Normal && event == Event::Quit {
            Action::SaveAndQuit
        } else {
            Action::Continue
        }
    }

    /// The state after `key` has been pressed at the time `now`.
    pub open spec fn handle_key(self, key: Key, now: Timestamp) -> AppView {
        match classified(self.input_mode, key) {
            Some(event) => self.apply(event, now),
            None => self,
        }
    }

    /// What the caller has to do after `key` has been pressed.
    pub open spec fn key_action(self, key: Key) -> Action {
        match classified(self.input_mode, key) {
            Some(event) => self.action(event),
            None => Action::Continue,
        }
    }

    /// The state after the events of `events`, in order, each with the time
    /// at which it happens.
    pub open spec fn run(self, events: Seq<(Event, Timestamp)>) -> AppView
        decreases events.len(),
    {
        if events.len() == 0 {
            self
        } else {
            self.run(events.drop_last()).apply(events.last().0, events.last().1)
        }
    }
}

} // verus!
