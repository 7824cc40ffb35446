use ratdo::app::App;
use ratdo::events::classify;
use ratdo::model::{Action, Event, InputMode, Key};
use ratdo::nav::Direction;

fn press(app: &mut App, keys: &str) {
    for c in keys.chars() {
        let key = match c {
            '\n' => Key::Enter,
            '\t' => Key::Tab,
            _ => Key::Char(c),
        };
        assert!(app.handle_key(key) == Action::Continue);
        assert!(app.is_well_formed());
    }
}

fn descriptions(app: &App) -> Vec<String> {
    app.todos().iter().map(|t| t.description.clone()).collect()
}

fn names(app: &App) -> Vec<String> {
    app.pages.iter().map(|p| p.name.clone()).collect()
}

#[test]
fn classify_in_normal_mode() {
    let m = InputMode::Normal;
    assert!(classify(m, Key::Char('q')) == Some(Event::Quit));
    assert!(classify(m, Key::Char('e')) == Some(Event::StartEdit));
    assert!(classify(m, Key::Char('a')) == Some(Event::StartAdd));
    assert!(classify(m, Key::Char('d')) == Some(Event::Delete));
    assert!(classify(m, Key::Char(' ')) == Some(Event::Toggle));
    assert!(classify(m, Key::Char('p')) == Some(Event::TogglePicking));
    assert!(classify(m, Key::Char('P')) == Some(Event::OpenPageSelector));
    assert!(classify(m, Key::Tab) == Some(Event::NextPage));
    assert!(classify(m, Key::BackTab) == Some(Event::PreviousPage));
    assert!(classify(m, Key::Down) == Some(Event::Navigate(Direction::Forward)));
    assert!(classify(m, Key::Char('j')) == Some(Event::Navigate(Direction::Forward)));
    assert!(classify(m, Key::Up) == Some(Event::Navigate(Direction::Backward)));
    assert!(classify(m, Key::Char('k')) == Some(Event::Navigate(Direction::Backward)));
    assert!(classify(m, Key::Enter) == None);
    assert!(classify(m, Key::Esc) == None);
    assert!(classify(m, Key::Backspace) == None);
    assert!(classify(m, Key::Char('n')) == None);
    assert!(classify(m, Key::Char('Q')) == None);
    assert!(classify(m, Key::Other) == None);
}

#[test]
fn classify_in_editing_mode() {
    let m = InputMode::Editing;
    assert!(classify(m, Key::Enter) == Some(Event::Confirm));
    assert!(classify(m, Key::Char('q')) == Some(Event::Character('q')));
    assert!(classify(m, Key::Char(' ')) == Some(Event::Character(' ')));
    assert!(classify(m, Key::Backspace) == Some(Event::Backspace));
    assert!(classify(m, Key::Esc) == Some(Event::Cancel));
    assert!(classify(m, Key::Tab) == None);
    assert!(classify(m, Key::Up) == None);
    assert!(classify(m, Key::Down) == None);
    assert!(classify(m, Key::Other) == None);
}

#[test]
fn classify_in_page_select_mode() {
    let m = InputMode::PageSelect;
    assert!(classify(m, Key::Enter) == Some(Event::Confirm));
    assert!(classify(m, Key::Char('n')) == Some(Event::NewPage));
    assert!(classify(m, Key::Char('a')) == Some(Event::NewPage));
    assert!(classify(m, Key::Char('d')) == Some(Event::DeletePage));
    assert!(classify(m, Key::Down) == Some(Event::Navigate(Direction::Forward)));
    assert!(classify(m, Key::Char('j')) == Some(Event::Navigate(Direction::Forward)));
    assert!(classify(m, Key::Up) == Some(Event::Navigate(Direction::Backward)));
    assert!(classify(m, Key::Char('k')) == Some(Event::Navigate(Direction::Backward)));
    assert!(classify(m, Key::Esc) == Some(Event::Cancel));
    assert!(classify(m, Key::Char('P')) == Some(Event::Cancel));
    assert!(classify(m, Key::Char('q')) == None);
    assert!(classify(m, Key::Tab) == None);
    assert!(classify(m, Key::Backspace) == None);
}

#[test]
fn typing_an_item_and_confirming_adds_it() {
    let mut app = App::new();
    press(&mut app, "a");
    assert!(app.input_mode == InputMode::Editing);
    assert!(!app.edit_mode);
    press(&mut app, "Buy milk");
    assert_eq!(app.current_input, "Buy milk");
    press(&mut app, "\n");
    assert!(app.input_mode == InputMode::Normal);
    assert_eq!(descriptions(&app), vec!["Buy milk"]);
    assert_eq!(app.current_input, "");
    assert_eq!(app.state.selected(), Some(0));
}

#[test]
fn confirming_an_empty_input_stays_in_editing() {
    let mut app = App::new();
    press(&mut app, "a\n");
    assert!(app.input_mode == InputMode::Editing);
    assert!(app.todos().is_empty());
    press(&mut app, "x\n");
    assert!(app.input_mode == InputMode::Normal);
    assert_eq!(descriptions(&app), vec!["x"]);
}

#[test]
fn backspace_removes_the_last_character() {
    let mut app = App::new();
    press(&mut app, "aab");
    assert!(app.handle_key(Key::Backspace) == Action::Continue);
    assert_eq!(app.current_input, "a");
    app.handle_key(Key::Backspace);
    assert_eq!(app.current_input, "");
    app.handle_key(Key::Backspace);
    assert_eq!(app.current_input, "");
    assert!(app.input_mode == InputMode::Editing);
}

#[test]
fn type_char_and_erase_char_edit_the_input() {
    let mut app = App::new();
    app.type_char('h');
    app.type_char('é');
    app.type_char('y');
    assert_eq!(app.current_input, "héy");
    app.erase_char();
    assert_eq!(app.current_input, "hé");
    app.erase_char();
    app.erase_char();
    app.erase_char();
    assert_eq!(app.current_input, "");
}

#[test]
fn escape_discards_the_input() {
    let mut app = App::new();
    press(&mut app, "ahello");
    app.handle_key(Key::Esc);
    assert!(app.input_mode == InputMode::Normal);
    assert_eq!(app.current_input, "");
    assert!(!app.edit_mode);
    assert!(!app.show_page_selector);
    assert!(app.todos().is_empty());
}

#[test]
fn editing_an_item_replaces_its_text() {
    let mut app = App::new();
    press(&mut app, "aone\natwo\nj");
    assert_eq!(app.state.selected(), Some(1));
    press(&mut app, "e");
    assert!(app.input_mode == InputMode::Editing);
    assert!(app.edit_mode);
    assert_eq!(app.current_input, "two");
    app.handle_key(Key::Backspace);
    press(&mut app, "in\n");
    assert!(app.input_mode == InputMode::Normal);
    assert!(!app.edit_mode);
    assert_eq!(descriptions(&app), vec!["one", "twin"]);
}

#[test]
fn edit_and_picking_keys_do_nothing_on_an_empty_page() {
    let mut app = App::new();
    press(&mut app, "e");
    assert!(app.input_mode == InputMode::Normal);
    press(&mut app, "p");
    assert!(!app.picking_mode);
    press(&mut app, "d ");
    assert!(app.todos().is_empty());
}

#[test]
fn keys_of_normal_mode_drive_the_list() {
    let mut app = App::new();
    press(&mut app, "aA\naB\naC\n");
    assert_eq!(app.state.selected(), Some(0));
    press(&mut app, "kp");
    assert!(app.picking_mode);
    assert_eq!(app.state.selected(), Some(2));
    press(&mut app, "j");
    assert_eq!(descriptions(&app), vec!["C", "A", "B"]);
    assert_eq!(app.state.selected(), Some(0));
    press(&mut app, "p");
    assert!(!app.picking_mode);
    press(&mut app, " ");
    assert!(app.todos()[0].completed);
    assert_eq!(app.state.selected(), Some(1));
    press(&mut app, "d");
    assert_eq!(descriptions(&app), vec!["C", "B"]);
    app.handle_key(Key::Down);
    assert_eq!(app.state.selected(), Some(0));
    app.handle_key(Key::Up);
    assert_eq!(app.state.selected(), Some(1));
}

#[test]
fn quit_is_asked_for_in_normal_mode_only() {
    let mut app = App::new();
    assert!(app.handle_key(Key::Char('q')) == Action::SaveAndQuit);
    assert!(app.input_mode == InputMode::Normal);
    press(&mut app, "a");
    assert!(app.handle_key(Key::Char('q')) == Action::Continue);
    assert_eq!(app.current_input, "q");
    app.handle_key(Key::Esc);
    press(&mut app, "P");
    assert!(app.handle_key(Key::Char('q')) == Action::Continue);
    assert!(app.input_mode == InputMode::PageSelect);
}

#[test]
fn creating_a_page_from_the_selector() {
    let mut app = App::new();
    press(&mut app, "P");
    assert!(app.input_mode == InputMode::PageSelect);
    assert!(app.show_page_selector);
    press(&mut app, "n");
    assert!(app.input_mode == InputMode::Editing);
    assert!(app.show_page_selector);
    press(&mut app, "Work\n");
    assert!(app.input_mode == InputMode::Normal);
    assert!(!app.show_page_selector);
    assert_eq!(names(&app), vec!["Default", "Work"]);
    assert_eq!(app.current_page_index, 1);
    assert_eq!(app.current_input, "");
    assert!(app.todos().is_empty());
}

#[test]
fn creating_a_page_with_a_taken_name_adds_nothing() {
    let mut app = App::new();
    press(&mut app, "PaDefault\n");
    assert!(app.input_mode == InputMode::Normal);
    assert!(!app.show_page_selector);
    assert_eq!(names(&app), vec!["Default"]);
    assert_eq!(app.current_input, "");
}

#[test]
fn cancelling_a_new_page_closes_the_selector() {
    let mut app = App::new();
    press(&mut app, "PnWo");
    app.handle_key(Key::Esc);
    assert!(app.input_mode == InputMode::Normal);
    assert!(!app.show_page_selector);
    assert_eq!(names(&app), vec!["Default"]);
    assert_eq!(app.current_input, "");
}

#[test]
fn choosing_a_page_in_the_selector() {
    let mut app = App::new();
    press(&mut app, "aone\natwo\nj");
    app.add_page("Work".to_string());
    press(&mut app, "ajob\n");
    press(&mut app, "P");
    assert_eq!(app.page_select_state.selected(), Some(1));
    press(&mut app, "j");
    assert_eq!(app.page_select_state.selected(), Some(0));
    assert_eq!(app.current_page_index, 1);
    press(&mut app, "k");
    assert_eq!(app.page_select_state.selected(), Some(1));
    press(&mut app, "k\n");
    assert!(app.input_mode == InputMode::Normal);
    assert!(!app.show_page_selector);
    assert_eq!(app.current_page_index, 0);
    assert_eq!(app.state.selected(), Some(0));
    assert_eq!(descriptions(&app), vec!["one", "two"]);
}

#[test]
fn confirm_page_settles_the_item_selection() {
    let mut app = App::new();
    press(&mut app, "aone\natwo\nathree\nk");
    assert_eq!(app.state.selected(), Some(2));
    app.add_page("Short".to_string());
    press(&mut app, "aonly\n");
    app.add_page("Empty".to_string());
    app.select_page_by_name("Default");
    app.state.select(Some(2));
    app.toggle_page_selector();
    app.page_select_state.select(Some(1));
    app.confirm_page();
    assert_eq!(app.current_page_index, 1);
    assert_eq!(app.state.selected(), Some(0));
    app.toggle_page_selector();
    app.page_select_state.select(Some(2));
    app.confirm_page();
    assert_eq!(app.current_page_index, 2);
    assert_eq!(app.state.selected(), None);
    app.toggle_page_selector();
    app.page_select_state.select(Some(0));
    app.confirm_page();
    assert_eq!(app.current_page_index, 0);
    assert_eq!(app.state.selected(), Some(0));
    assert!(app.is_well_formed());
}

#[test]
fn confirm_page_keeps_a_selection_that_fits() {
    let mut app = App::new();
    press(&mut app, "aone\natwo\nj");
    press(&mut app, "P\n");
    assert_eq!(app.current_page_index, 0);
    assert_eq!(app.state.selected(), Some(1));
}

#[test]
fn closing_the_selector_keeps_the_current_page() {
    let mut app = App::new();
    app.add_page("Work".to_string());
    press(&mut app, "Pj");
    app.handle_key(Key::Esc);
    assert!(app.input_mode == InputMode::Normal);
    assert!(!app.show_page_selector);
    assert_eq!(app.current_page_index, 1);
    press(&mut app, "PP");
    assert!(app.input_mode == InputMode::Normal);
    assert!(!app.show_page_selector);
}

#[test]
fn deleting_pages_from_the_selector() {
    let mut app = App::new();
    app.add_page("Work".to_string());
    app.add_page("Home".to_string());
    press(&mut app, "Pd");
    assert_eq!(names(&app), vec!["Default", "Work"]);
    assert_eq!(app.current_page_index, 1);
    assert!(app.input_mode == InputMode::PageSelect);
    press(&mut app, "d");
    assert_eq!(names(&app), vec!["Default"]);
    assert_eq!(app.current_page_index, 0);
    press(&mut app, "d");
    assert_eq!(names(&app), vec!["Default"]);
}

#[test]
fn tab_after_browsing_the_selector_goes_to_the_page_after_the_current_one() {
    let mut app = App::new();
    app.add_page("Work".to_string());
    app.add_page("Home".to_string());
    app.select_page_by_name("Default");
    press(&mut app, "P");
    app.handle_key(Key::Down);
    app.handle_key(Key::Down);
    assert_eq!(app.page_select_state.selected(), Some(2));
    app.handle_key(Key::Esc);
    assert_eq!(app.current_page_index, 0);
    app.handle_key(Key::Tab);
    assert_eq!(app.current_page_index, 1);
    assert_eq!(app.current_page().name, "Work");
    assert_eq!(app.page_select_state.selected(), Some(1));
}

#[test]
fn back_tab_after_browsing_the_selector_goes_to_the_page_before_the_current_one() {
    let mut app = App::new();
    app.add_page("Work".to_string());
    app.add_page("Home".to_string());
    app.select_page_by_name("Work");
    press(&mut app, "Pj");
    app.handle_key(Key::Esc);
    app.handle_key(Key::BackTab);
    assert_eq!(app.current_page().name, "Default");
}

#[test]
fn tab_and_back_tab_switch_pages() {
    let mut app = App::new();
    app.add_page("Work".to_string());
    app.handle_key(Key::Tab);
    assert_eq!(app.current_page_index, 0);
    app.handle_key(Key::BackTab);
    assert_eq!(app.current_page_index, 1);
}

#[test]
fn apply_ignores_events_without_meaning_in_the_mode() {
    let mut app = App::new();
    press(&mut app, "aone\n");
    assert!(app.apply(Event::Confirm) == Action::Continue);
    assert!(app.apply(Event::Character('x')) == Action::Continue);
    assert!(app.apply(Event::DeletePage) == Action::Continue);
    assert!(app.apply(Event::Cancel) == Action::Continue);
    assert_eq!(app.current_input, "");
    assert_eq!(descriptions(&app), vec!["one"]);
    assert!(app.input_mode == InputMode::Normal);
    app.apply(Event::StartAdd);
    assert!(app.apply(Event::Quit) == Action::Continue);
    assert!(app.apply(Event::Delete) == Action::Continue);
    assert!(app.apply(Event::NextPage) == Action::Continue);
    assert!(app.input_mode == InputMode::Editing);
    assert_eq!(descriptions(&app), vec!["one"]);
}

#[test]
fn other_keys_are_ignored() {
    let mut app = App::new();
    assert!(app.handle_key(Key::Other) == Action::Continue);
    assert!(app.handle_key(Key::Enter) == Action::Continue);
    assert!(app.input_mode == InputMode::Normal);
    assert!(app.todos().is_empty());
}

#[test]
fn confirm_input_commits_in_order_of_priority() {
    let mut app = App::new();
    app.current_input = "first".to_string();
    app.start_adding();
    app.current_input = "first".to_string();
    app.confirm_input();
    assert_eq!(descriptions(&app), vec!["first"]);
    app.start_editing();
    app.current_input = "changed".to_string();
    app.confirm_input();
    assert_eq!(descriptions(&app), vec!["changed"]);
    assert!(!app.edit_mode);
    app.toggle_page_selector();
    app.start_adding();
    app.current_input = "Page".to_string();
    app.confirm_input();
    assert_eq!(names(&app), vec!["Default", "Page"]);
    assert_eq!(app.pages[0].todos.len(), 1);
    assert!(app.pages[1].todos.is_empty());
    assert!(app.input_mode == InputMode::Normal);
}

#[test]
fn start_adding_empties_the_input() {
    let mut app = App::new();
    app.current_input = "left over".to_string();
    app.edit_mode = true;
    app.start_adding();
    assert_eq!(app.current_input, "");
    assert!(!app.edit_mode);
    assert!(app.input_mode == InputMode::Editing);
}

#[test]
fn selector_navigate_goes_round() {
    let mut app = App::new();
    app.add_page("Work".to_string());
    app.add_page("Home".to_string());
    app.selector_navigate(Direction::Forward);
    assert_eq!(app.page_select_state.selected(), Some(0));
    app.selector_navigate(Direction::Backward);
    assert_eq!(app.page_select_state.selected(), Some(2));
    app.selector_navigate(Direction::Backward);
    assert_eq!(app.page_select_state.selected(), Some(1));
    assert_eq!(app.current_page_index, 2);
}

#[test]
fn any_run_of_keys_keeps_the_state_well_formed() {
    let keys = [
        Key::Char('a'), Key::Char('x'), Key::Enter, Key::Char('a'), Key::Char('y'), Key::Enter,
        Key::Char('p'), Key::Down, Key::Down, Key::Up, Key::Char(' '), Key::Char('P'),
        Key::Char('n'), Key::Char('W'), Key::Enter, Key::Char('a'), Key::Char('z'), Key::Enter,
        Key::Char('P'), Key::Up, Key::Enter, Key::Char('d'), Key::Char('d'), Key::Char('d'),
        Key::Tab, Key::BackTab, Key::Char('P'), Key::Char('d'), Key::Char('d'), Key::Esc,
        Key::Char('e'), Key::Backspace, Key::Esc, Key::Other,
    ];
    let mut app = App::new();
    for round in 0..3 {
        for (i, key) in keys.iter().enumerate() {
            if (i + round) % 7 != 3 {
                app.handle_key(*key);
            }
            assert!(app.is_well_formed());
            assert!(!app.pages.is_empty());
            assert!(app.current_page_index < app.pages.len());
            match app.state.selected() {
                Some(i) => assert!(i < app.todos().len()),
                None => assert!(app.todos().is_empty()),
            }
        }
    }
}
