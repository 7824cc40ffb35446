use ratdo::app::App;
use ratdo::model::InputMode;
use ratdo::todo::Timestamp;

fn stamp(seconds: i64) -> Timestamp {
    Timestamp { seconds, nanoseconds: 5, offset_seconds: -3600 }
}

fn app_with(items: &[&str]) -> App {
    let mut app = App::new();
    for (i, text) in items.iter().enumerate() {
        app.current_input = text.to_string();
        app.add_todo_at(stamp(i as i64));
    }
    app
}

fn descriptions(app: &App) -> Vec<String> {
    app.todos().iter().map(|t| t.description.clone()).collect()
}

fn flags(app: &App) -> Vec<bool> {
    app.todos().iter().map(|t| t.completed).collect()
}

#[test]
fn add_todo_at_appends_an_open_item_and_clears_the_input() {
    let mut app = App::new();
    app.current_input = "Buy milk".to_string();
    app.add_todo_at(stamp(7));
    assert_eq!(descriptions(&app), vec!["Buy milk"]);
    assert_eq!(flags(&app), vec![false]);
    assert_eq!(app.todos()[0].created_at, stamp(7));
    assert_eq!(app.current_input, "");
    assert_eq!(app.state.selected(), Some(0));
    assert!(app.is_well_formed());
}

#[test]
fn add_todo_keeps_the_selection_of_a_page_with_items() {
    let mut app = app_with(&["a", "b"]);
    app.next();
    app.current_input = "c".to_string();
    app.add_todo_at(stamp(9));
    assert_eq!(descriptions(&app), vec!["a", "b", "c"]);
    assert_eq!(app.state.selected(), Some(1));
}

#[test]
fn add_todo_stamps_with_the_clock() {
    let mut app = App::new();
    app.current_input = " spaced ".to_string();
    app.add_todo();
    assert_eq!(descriptions(&app), vec![" spaced "]);
    assert_eq!(flags(&app), vec![false]);
    assert!(app.todos()[0].created_at.seconds > 1_500_000_000);
    assert_eq!(app.current_input, "");
    assert_eq!(app.state.selected(), Some(0));
}

#[test]
fn add_todo_acts_on_the_current_page_only() {
    let mut app = app_with(&["a"]);
    app.add_page("Work".to_string());
    app.current_input = "w".to_string();
    app.add_todo_at(stamp(1));
    assert_eq!(app.pages[0].todos.len(), 1);
    assert_eq!(app.pages[1].todos.len(), 1);
    assert_eq!(app.pages[1].todos[0].description, "w");
}

#[test]
fn delete_todo_in_the_middle_keeps_the_index() {
    let mut app = app_with(&["a", "b", "c"]);
    app.next();
    app.delete_todo();
    assert_eq!(descriptions(&app), vec!["a", "c"]);
    assert_eq!(app.state.selected(), Some(1));
    assert!(app.is_well_formed());
}

#[test]
fn delete_todo_at_the_end_steps_back() {
    let mut app = app_with(&["a", "b", "c"]);
    app.previous();
    assert_eq!(app.state.selected(), Some(2));
    app.delete_todo();
    assert_eq!(descriptions(&app), vec!["a", "b"]);
    assert_eq!(app.state.selected(), Some(1));
}

#[test]
fn delete_todo_of_the_first_keeps_index_zero() {
    let mut app = app_with(&["a", "b"]);
    app.delete_todo();
    assert_eq!(descriptions(&app), vec!["b"]);
    assert_eq!(app.state.selected(), Some(0));
}

#[test]
fn delete_todo_of_the_only_item_selects_nothing() {
    let mut app = app_with(&["a"]);
    app.delete_todo();
    assert!(app.todos().is_empty());
    assert_eq!(app.state.selected(), None);
    assert!(app.is_well_formed());
}

#[test]
fn delete_todo_on_an_empty_page_does_nothing() {
    let mut app = App::new();
    app.delete_todo();
    assert!(app.todos().is_empty());
    assert_eq!(app.state.selected(), None);
}

#[test]
fn toggle_todo_completes_and_moves_on() {
    let mut app = app_with(&["a", "b", "c"]);
    app.toggle_todo();
    assert_eq!(flags(&app), vec![true, false, false]);
    assert_eq!(app.state.selected(), Some(1));
    app.toggle_todo();
    assert_eq!(flags(&app), vec![true, true, false]);
    assert_eq!(app.state.selected(), Some(2));
    app.toggle_todo();
    assert_eq!(flags(&app), vec![true, true, true]);
    assert_eq!(app.state.selected(), Some(0));
    assert_eq!(descriptions(&app), vec!["a", "b", "c"]);
}

#[test]
fn toggle_todo_reopens_without_moving() {
    let mut app = app_with(&["a", "b"]);
    app.toggle_todo();
    app.state.select(Some(0));
    app.toggle_todo();
    assert_eq!(flags(&app), vec![false, false]);
    assert_eq!(app.state.selected(), Some(0));
}

#[test]
fn toggle_todo_twice_restores_flag_and_place() {
    let mut app = app_with(&["a", "b", "c"]);
    app.todos_mut()[2].completed = true;
    app.state.select(Some(1));
    app.toggle_todo();
    app.state.select(Some(1));
    app.toggle_todo();
    assert_eq!(descriptions(&app), vec!["a", "b", "c"]);
    assert_eq!(flags(&app), vec![false, false, true]);
    assert_eq!(app.todos()[1].created_at, stamp(1));
}

#[test]
fn toggle_todo_in_picking_mode_keeps_the_order() {
    let mut app = app_with(&["a", "b", "c"]);
    app.toggle_picking_mode();
    app.toggle_todo();
    assert_eq!(descriptions(&app), vec!["a", "b", "c"]);
    assert_eq!(flags(&app), vec![true, false, false]);
    assert_eq!(app.state.selected(), Some(1));
}

#[test]
fn toggle_todo_on_an_empty_page_does_nothing() {
    let mut app = App::new();
    app.toggle_todo();
    assert!(app.todos().is_empty());
    assert_eq!(app.state.selected(), None);
}

#[test]
fn start_editing_loads_the_text() {
    let mut app = app_with(&["a", "bee"]);
    app.next();
    app.start_editing();
    assert_eq!(app.current_input, "bee");
    assert!(app.input_mode == InputMode::Editing);
    assert!(app.edit_mode);
    assert_eq!(descriptions(&app), vec!["a", "bee"]);
}

#[test]
fn start_editing_on_an_empty_page_does_nothing() {
    let mut app = App::new();
    app.current_input = "kept".to_string();
    app.start_editing();
    assert_eq!(app.current_input, "kept");
    assert!(app.input_mode == InputMode::Normal);
    assert!(!app.edit_mode);
}

#[test]
fn update_todo_replaces_the_text_only() {
    let mut app = app_with(&["a", "b"]);
    app.todos_mut()[1].completed = true;
    app.state.select(Some(1));
    app.current_input = "better".to_string();
    app.update_todo();
    assert_eq!(descriptions(&app), vec!["a", "better"]);
    assert_eq!(flags(&app), vec![false, true]);
    assert_eq!(app.todos()[1].created_at, stamp(1));
    assert_eq!(app.current_input, "");
    assert_eq!(app.state.selected(), Some(1));
}

#[test]
fn update_todo_on_an_empty_page_keeps_the_input() {
    let mut app = App::new();
    app.current_input = "kept".to_string();
    app.update_todo();
    assert_eq!(app.current_input, "kept");
    assert!(app.todos().is_empty());
}

#[test]
fn adding_and_deleting_keeps_the_state_well_formed() {
    let mut app = App::new();
    for round in 0..4 {
        for i in 0..3 {
            app.current_input = format!("item {round}.{i}");
            app.add_todo_at(stamp(i));
            assert!(app.is_well_formed());
            assert!(app.state.selected().is_some());
        }
        app.previous();
        for _ in 0..4 {
            app.delete_todo();
            assert!(app.is_well_formed());
            assert!(!app.pages.is_empty());
            assert!(app.current_page_index < app.pages.len());
            assert_eq!(app.state.selected().is_none(), app.todos().is_empty());
        }
    }
    assert!(app.todos().is_empty());
    assert_eq!(app.state.selected(), None);
}
