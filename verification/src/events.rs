//! Key presses, what they ask for, and what the application makes of them.

use crate::app::App;
use crate::model::{classified, loaded_pages, Action, Event, InputMode, Key};
use crate::nav::Direction;
use crate::store::StoredData;
use crate::todo::{pages_view, Timestamp, TodoPage};
use vstd::prelude::*;

verus! {

/// What pressing `key` asks for in `mode`, if anything.
pub fn classify(mode: InputMode, key: Key) -> (event: Option<Event>)
    ensures
        event == classified(mode, key),
{
    match mode {
        InputMode::Normal => match key {
            Key::Char('q') => Some(Event::Quit),
            Key::Char('e') => Some(Event::StartEdit),
            Key::Char('a') => Some(Event::StartAdd),
            Key::Char('d') => Some(Event::Delete),
            Key::Char(' ') => Some(Event::Toggle),
            Key::Char('p') => Some(Event::TogglePicking),
            Key::Char('P') => Some(Event::OpenPageSelector),
            Key::Tab => Some(Event::NextPage),
            Key::BackTab => Some(Event::PreviousPage),
            Key::Down | Key::Char('j') => Some(Event::Navigate(Direction::Forward)),
            Key::Up | Key::Char('k') => Some(Event::Navigate(Direction::Backward)),
            _ => None,
        },
        InputMode::Editing => match key {
            Key::Enter => Some(Event::Confirm),
            Key::Char(c) => Some(Event::Character(c)),
            Key::Backspace => Some(Event::Backspace),
            Key::Esc => Some(Event::Cancel),
            _ => None,
        },
        InputMode::PageSelect => match key {
            Key::Enter => Some(Event::Confirm),
            Key::Char('n') | Key::Char('a') => Some(Event::NewPage),
            Key::Char('d') => Some(Event::DeletePage),
            Key::Down | Key::Char('j') => Some(Event::Navigate(Direction::Forward)),
            Key::Up | Key::Char('k') => Some(Event::Navigate(Direction::Backward)),
            Key::Esc | Key::Char('P') => Some(Event::Cancel),
            _ => None,
        },
    }
}

impl App {
    /// Replaces the pages by what was stored and makes the first page
    /// current. Where nothing usable was stored, a single empty page named
    /// "Default" takes their place; where nothing has been stored yet,
    /// nothing changes.
    pub fn load_todos(&mut self, stored: StoredData)
        ensures
            final(self)@ == old(self)@.load_todos(stored@),
            old(self).well_formed() || !(stored is Missing) ==> final(self).well_formed(),
    {
        match stored {
            StoredData::Missing => {
                return;
            },
            StoredData::Pages(pages) => {
                if pages.len() > 0 {
                    self.pages = pages;
                } else {
                    let mut fresh = Vec::new();
                    fresh.push(TodoPage::new("Default".to_owned()));
                    self.pages = fresh;
                }
            },
            StoredData::LegacyItems(todos) => {
                let mut fresh = Vec::new();
                fresh.push(TodoPage { name: "Default".to_owned(), todos });
                self.pages = fresh;
            },
            StoredData::Unreadable => {
                let mut fresh = Vec::new();
                fresh.push(TodoPage::new("Default".to_owned()));
                self.pages = fresh;
            },
        }
        assert(pages_view(self.pages@) =~= loaded_pages(stored@));
        self.enter_page(0);
    }

    /// Begins typing a new text with an empty input: a new item in normal
    /// mode, the name of a new page in the page selector.
    pub fn start_adding(&mut self)
        ensures
            final(self)@ == old(self)@.start_adding(),
            old(self).well_formed() ==> final(self).well_formed(),
    {
        self.input_mode = InputMode::Editing;
        self.edit_mode = false;
        self.current_input = String::new();
    }

    /// Appends `c` to the input.
    pub fn type_char(&mut self, c: char)
        ensures
            final(self)@ == old(self)@.type_char(c),
            old(self).well_formed() ==> final(self).well_formed(),
    {
        self.current_input.push(c);
    }

    /// Removes the last character of the input, if there is one.
    pub fn erase_char(&mut self)
        ensures
            final(self)@ == old(self)@.erase_char(),
            old(self).well_formed() ==> final(self).well_formed(),
    {
        self.current_input.pop();
    }

    /// Commits the input. With an empty input nothing happens. Else, in this
    /// order: if a page name is being typed, that page is added; if an item
    /// is under edit, it gets the text; otherwise a new item, stamped with
    /// the current local time, is added. Then the input is empty and the
    /// mode is normal.
    pub fn confirm_input(&mut self)
        requires
            old(self).well_formed(),
        ensures
            exists|now: Timestamp| final(self)@ == #[trigger] old(self)@.confirm_input(now),
            final(self).well_formed(),
    {
        let ghost any = Timestamp { seconds: 0, nanoseconds: 0, offset_seconds: 0 };
        if self.current_input.as_str().is_empty() {
            assert(self@ == old(self)@.confirm_input(any));
            return;
        }
        if self.show_page_selector {
            let name = self.current_input.clone();
            self.add_page(name);
            self.current_input = String::new();
            self.show_page_selector = false;
            self.input_mode = InputMode::Normal;
            self.edit_mode = false;
            assert(self@ == old(self)@.confirm_input(any));
        } else if self.edit_mode {
            self.update_todo();
            self.input_mode = InputMode::Normal;
            self.edit_mode = false;
            assert(self@ == old(self)@.confirm_input(any));
        } else {
            self.add_todo();
            let ghost now = choose|now: Timestamp| self@ == #[trigger] old(self)@.add_todo(now);
            self.input_mode = InputMode::Normal;
            self.edit_mode = false;
            assert(self@ == old(self)@.confirm_input(now));
        }
    }

    /// Throws the input away and returns to normal mode.
    pub fn cancel_input(&mut self)
        ensures
            final(self)@ == old(self)@.cancel_input(),
            old(self).well_formed() ==> final(self).well_formed(),
    {
        self.current_input = String::new();
        self.input_mode = InputMode::Normal;
        self.edit_mode = false;
        self.show_page_selector = false;
    }

    /// Makes the page marked in the selector current and closes the
    /// selector. The item selection is kept as far as it fits the new page:
    /// it is nothing on an empty page, the last item where the index is
    /// beyond the end, and the first item where nothing was selected.
    pub fn confirm_page(&mut self)
        requires
            old(self).well_formed(),
        ensures
            final(self)@ == old(self)@.confirm_page(),
            final(self).well_formed(),
    {
        if let Some(marked) = self.page_select_state.selected {
            self.current_page_index = marked;
            let n = self.pages[marked].todos.len();
            if n == 0 {
                self.state.select(None);
            } else {
                match self.state.selected {
                    Some(i) => {
                        if i >= n {
                            self.state.select(Some(n - 1));
                        }
                    },
                    None => {
                        self.state.select(Some(0));
                    },
                }
            }
            self.show_page_selector = false;
            self.input_mode = InputMode::Normal;
        }
    }

    /// Removes the page marked in the selector, unless it is the only one.
    /// The mark stays on the same index, or goes to the last page if that
    /// index is now beyond the end; the marked page becomes current and its
    /// first item selected.
    pub fn delete_selected_page(&mut self)
        requires
            old(self).well_formed(),
        ensures
            final(self)@ == old(self)@.delete_selected_page(),
            final(self).well_formed(),
    {
        if self.pages.len() > 1 {
            if let Some(marked) = self.page_select_state.selected {
                let ghost before = self.pages@;
                self.pages.remove(marked);
                assert(pages_view(self.pages@) =~= pages_view(before).remove(marked as int));
                let target = if marked >= self.pages.len() {
                    self.pages.len() - 1
                } else {
                    marked
                };
                self.enter_page(target);
            }
        }
    }

    /// Moves the mark in the page selector one step in `direction`, going
    /// round.
    pub fn selector_navigate(&mut self, direction: Direction)
        requires
            old(self).well_formed(),
        ensures
            final(self)@ == old(self)@.selector_navigate(direction),
            final(self).well_formed(),
    {
        let target = self.page_target(direction);
        self.page_select_state.select(Some(target));
    }

    /// Closes the page selector.
    pub fn close_page_selector(&mut self)
        ensures
            final(self)@ == old(self)@.close_page_selector(),
            old(self).well_formed() ==> final(self).well_formed(),
    {
        self.show_page_selector = false;
        self.input_mode = InputMode::Normal;
    }

    /// Applies `event` as the current input mode understands it and says
    /// what the caller has to do next. An event that has no meaning in the
    /// current mode changes nothing. A new item is stamped with the current
    /// local time.
    pub fn apply(&mut self, event: Event) -> (action: Action)
        requires
            old(self).well_formed(),
        ensures
            exists|now: Timestamp| final(self)@ == #[trigger] old(self)@.apply(event, now),
            action == old(self)@.action(event),
            final(self).well_formed(),
    {
        let ghost any = Timestamp { seconds: 0, nanoseconds: 0, offset_seconds: 0 };
        let ghost mut now = any;
        let mut action = Action::Continue;
        match self.input_mode {
            InputMode::Normal => match event {
                Event::Quit => {
                    action = Action::SaveAndQuit;
                },
                Event::StartAdd => {
                    self.start_adding();
                },
                Event::StartEdit => {
                    if self.todos().len() > 0 {
                        self.start_editing();
                    }
                },
                Event::Delete => {
                    self.delete_todo();
                },
                Event::Toggle => {
                    self.toggle_todo();
                },
                Event::TogglePicking => {
                    self.toggle_picking_mode();
                },
                Event::OpenPageSelector => {
                    self.toggle_page_selector();
                },
                Event::NextPage => {
                    self.next_page();
                },
                Event::PreviousPage => {
                    self.previous_page();
                },
                Event::Navigate(direction) => {
                    self.navigate(direction);
                },
                _ => {},
            },
            InputMode::Editing => match event {
                Event::Confirm => {
                    self.confirm_input();
                    proof {
                        now = choose|now: Timestamp|
                            self@ == #[trigger] old(self)@.confirm_input(now);
                    }
                },
                Event::Character(c) => {
                    self.type_char(c);
                },
                Event::Backspace => {
                    self.erase_char();
                },
                Event::Cancel => {
                    self.cancel_input();
                },
                _ => {},
            },
            InputMode::PageSelect => match event {
                Event::Confirm => {
                    self.confirm_page();
                },
                Event::NewPage => {
                    self.start_adding();
                },
                Event::DeletePage => {
                    self.delete_selected_page();
                },
                Event::Navigate(direction) => {
                    self.selector_navigate(direction);
                },
                Event::Cancel => {
                    self.close_page_selector();
                },
                _ => {},
            },
        }
        assert(self@ == old(self)@.apply(event, now));
        action
    }

    /// Handles a key press: gives the key the meaning it has in the current
    /// input mode, applies it, and says what the caller has to do next.
    pub fn handle_key(&mut self, key: Key) -> (action: Action)
        requires
            old(self).well_formed(),
        ensures
            exists|now: Timestamp| final(self)@ == #[trigger] old(self)@.handle_key(key, now),
            action == old(self)@.key_action(key),
            final(self).well_formed(),
    {
        let ghost any = Timestamp { seconds: 0, nanoseconds: 0, offset_seconds: 0 };
        match classify(self.input_mode, key) {
            Some(event) => {
                let action = self.apply(event);
                let ghost now = choose|now: Timestamp|
                    self@ == #[trigger] old(self)@.apply(event, now);
                assert(self@ == old(self)@.handle_key(key, now));
                action
            },
            None => {
                assert(self@ == old(self)@.handle_key(key, any));
                Action::Continue
            },
        }
    }
}

} // verus!
