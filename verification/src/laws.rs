//! What holds of the operations taken together.

use crate::model::{
    first_page_named, has_page, is_first_page_named, loaded_pages, names_valid, selection_fits,
    Action, AppView, Event, InputMode, StoredView,
};
use crate::nav::{
    index_after, lemma_index_after_full_circle, lemma_index_after_in_range, lemma_next_index,
    lemma_previous_index, lemma_reordered_as_insert, lemma_reordered_there_and_back,
    lemma_reordered_tracks, lemma_target_index_reversed, Direction,
};
use crate::todo::{Timestamp, TodoPageView, TodoView};
use vstd::prelude::*;

verus! {

/// The state at start is well formed and its flags agree with its mode.
pub proof fn lemma_initial_well_formed()
    ensures
        AppView::initial().well_formed(),
        AppView::initial().modes_consistent(),
{
}

/// Moving through the list keeps the state well formed: the selection stays
/// on an item of the page, whether or not an item is carried along.
pub proof fn lemma_navigate_well_formed(a: AppView, direction: Direction)
    requires
        a.well_formed(),
    ensures
        a.navigate(direction).well_formed(),
        a.navigate(direction).pages.len() == a.pages.len(),
        a.navigate(direction).current_todos().len() == a.current_todos().len(),
{
    let todos = a.current_todos();
    if todos.len() > 0 {
        let i = a.selected->0;
        lemma_next_index(i, todos.len() as int);
        lemma_previous_index(i, todos.len() as int);
        lemma_reordered_tracks(todos, i, direction);
    }
}

/// A step in one direction followed by a step in the other leaves the whole
/// state as it was, in picking mode too: `previous` undoes `next`, and `next`
/// undoes `previous`.
pub proof fn lemma_navigate_there_and_back(a: AppView, direction: Direction)
    requires
        a.well_formed(),
    ensures
        a.navigate(direction).navigate(direction.reversed()) == a,
        a.next().previous() == a,
        a.previous().next() == a,
{
    lemma_navigate_one_way_and_back(a, Direction::Forward);
    lemma_navigate_one_way_and_back(a, Direction::Backward);
    lemma_navigate_one_way_and_back(a, direction);
}

proof fn lemma_navigate_one_way_and_back(a: AppView, direction: Direction)
    requires
        a.well_formed(),
    ensures
        a.navigate(direction).navigate(direction.reversed()) == a,
{
    let todos = a.current_todos();
    if todos.len() > 0 {
        let i = a.selected->0;
        let n = todos.len() as int;
        let there = a.navigate(direction);
        let back = there.navigate(direction.reversed());
        lemma_target_index_reversed(i, n, direction);
        lemma_reordered_tracks(todos, i, direction);
        lemma_reordered_there_and_back(todos, i, direction);
        assert(back.pages =~= a.pages);
    }
}

/// The state that `k` steps in `direction` lead to: the selection has gone
/// `k` places round the list, and in picking mode the selected item has been
/// taken out and put in again at that place, the others keeping their order.
pub proof fn lemma_navigate_times(a: AppView, direction: Direction, k: nat)
    requires
        a.well_formed(),
        a.selected is Some,
    ensures
        a.navigate_times(direction, k).well_formed(),
        a.navigate_times(direction, k) == (AppView {
            selected: Some(
                index_after(a.selected->0, a.current_todos().len() as int, direction, k),
            ),
            ..a.with_current_todos(
                if a.picking_mode {
                    a.current_todos().remove(a.selected->0).insert(
                        index_after(a.selected->0, a.current_todos().len() as int, direction, k),
                        a.current_todos()[a.selected->0],
                    )
                } else {
                    a.current_todos()
                },
            )
        }),
    decreases k,
{
    let todos = a.current_todos();
    let i = a.selected->0;
    let n = todos.len() as int;
    let rest = todos.remove(i);
    if k == 0 {
        assert(rest.insert(i, todos[i]) =~= todos);
        assert(a.pages.update(a.current_page_index, a.pages[a.current_page_index]) =~= a.pages);
    } else {
        let j = (k - 1) as nat;
        lemma_navigate_times(a, direction, j);
        lemma_index_after_in_range(i, n, direction, j);
        lemma_index_after_in_range(i, n, direction, k);
        let before = a.navigate_times(direction, j);
        let p = index_after(i, n, direction, j);
        let t = index_after(i, n, direction, k);
        let after = before.navigate(direction);
        if a.picking_mode {
            let held = rest.insert(p, todos[i]);
            assert(before.current_todos() == held);
            lemma_reordered_as_insert(held, p, direction);
            assert(held.remove(p) =~= rest);
            assert(after.current_todos() =~= rest.insert(t, todos[i]));
            assert(after.pages =~= a.with_current_todos(rest.insert(t, todos[i])).pages);
        } else {
            assert(after.pages =~= a.with_current_todos(todos).pages);
        }
    }
}

/// As many steps in one direction as the current page has items lead back
/// to the state they began in. In picking mode the selected item goes once
/// round the list and every item is in its old place again.
pub proof fn lemma_navigate_full_circle(a: AppView, direction: Direction)
    requires
        a.well_formed(),
    ensures
        a.navigate_times(direction, a.current_todos().len()) == a,
{
    let todos = a.current_todos();
    if todos.len() > 0 {
        let i = a.selected->0;
        lemma_navigate_times(a, direction, todos.len());
        lemma_index_after_full_circle(i, todos.len() as int, direction);
        assert(todos.remove(i).insert(i, todos[i]) =~= todos);
        assert(a.pages.update(a.current_page_index, a.pages[a.current_page_index]) =~= a.pages);
    }
}

/// Stepping from page to page goes round the pages from the current one,
/// whatever is marked in the selector, and keeps the state well formed. A
/// step forward and a step backward undo each other as to the current page.
pub proof fn lemma_page_steps_from_current(a: AppView)
    requires
        a.well_formed(),
    ensures
        a.next_page().current_page_index == if a.current_page_index == a.pages.len() - 1 {
            0
        } else {
            a.current_page_index + 1
        },
        a.previous_page().current_page_index == if a.current_page_index == 0 {
            a.pages.len() - 1
        } else {
            a.current_page_index - 1
        },
        a.next_page().pages == a.pages,
        a.previous_page().pages == a.pages,
        a.next_page().previous_page().current_page_index == a.current_page_index,
        a.previous_page().next_page().current_page_index == a.current_page_index,
{
    let n = a.pages.len() as int;
    lemma_next_index(a.current_page_index, n);
    lemma_previous_index(a.current_page_index, n);
    lemma_next_index(a.previous_page().current_page_index, n);
    lemma_previous_index(a.next_page().current_page_index, n);
}

/// Picking mode cannot be changed on an empty page; on any other page two
/// changes restore it.
pub proof fn lemma_toggle_picking_mode(a: AppView)
    ensures
        a.current_todos().len() == 0 ==> a.toggle_picking_mode() == a,
        a.current_todos().len() > 0 ==> a.toggle_picking_mode().picking_mode != a.picking_mode,
        a.toggle_picking_mode().toggle_picking_mode() == a,
{
    let once = a.toggle_picking_mode();
    assert(once.current_todos() == a.current_todos());
}

/// Stepping from page to page keeps the state well formed.
pub proof fn lemma_page_steps_well_formed(a: AppView, direction: Direction)
    requires
        a.well_formed(),
    ensures
        0 <= a.page_target(direction) < a.pages.len(),
        a.next_page().well_formed(),
        a.previous_page().well_formed(),
        a.selector_navigate(direction).well_formed(),
{
    lemma_next_index(a.current_page_index, a.pages.len() as int);
    lemma_previous_index(a.current_page_index, a.pages.len() as int);
    if let Some(i) = a.page_selected {
        lemma_next_index(i, a.pages.len() as int);
        lemma_previous_index(i, a.pages.len() as int);
    }
}

/// Every operation on pages and items keeps the state well formed: there is
/// always a page, the current page is one of them, the selected item is an
/// item of the current page, and nothing is selected exactly when that page
/// is empty.
pub proof fn lemma_operations_well_formed(
    a: AppView,
    name: Seq<char>,
    created_at: Timestamp,
    stored: StoredView,
)
    requires
        a.well_formed(),
    ensures
        a.add_page(name).well_formed(),
        a.select_page_by_name(name).well_formed(),
        a.create_or_select_page(name).well_formed(),
        a.toggle_page_selector().well_formed(),
        a.toggle_picking_mode().well_formed(),
        a.add_todo(created_at).well_formed(),
        a.delete_todo().well_formed(),
        a.toggle_todo().well_formed(),
        a.start_editing().well_formed(),
        a.update_todo().well_formed(),
        a.load_todos(stored).well_formed(),
        a.confirm_page().well_formed(),
        a.delete_selected_page().well_formed(),
        a.confirm_input(created_at).well_formed(),
        a.cancel_input().well_formed(),
{
    if let Some(i) = a.selected {
        lemma_next_index(i, a.current_todos().len() as int);
    }
    if has_page(a.pages, name) {
        lemma_first_page_exists(a.pages, name);
    }
}

/// Among the pages that bear a name there is a first one.
pub proof fn lemma_first_page_exists(pages: Seq<TodoPageView>, name: Seq<char>)
    requires
        has_page(pages, name),
    ensures
        is_first_page_named(pages, name, first_page_named(pages, name)),
{
    let k = choose|i: int| #![trigger pages[i]] 0 <= i < pages.len() && pages[i].name == name;
    lemma_first_page_before(pages, name, k);
}

/// If page `k` bears the name, the first page that bears it is found at or
/// before `k`.
proof fn lemma_first_page_before(pages: Seq<TodoPageView>, name: Seq<char>, k: int)
    requires
        0 <= k < pages.len(),
        pages[k].name == name,
    ensures
        exists|i: int| is_first_page_named(pages, name, i),
    decreases k,
{
    if forall|j: int| #![trigger pages[j]] 0 <= j < k ==> pages[j].name != name {
        assert(is_first_page_named(pages, name, k));
    } else {
        let j = choose|j: int| #![trigger pages[j]] 0 <= j < k && pages[j].name == name;
        lemma_first_page_before(pages, name, j);
    }
}

/// Whatever happens, the state stays well formed.
pub proof fn lemma_apply_well_formed(a: AppView, event: Event, now: Timestamp)
    requires
        a.well_formed(),
    ensures
        a.apply(event, now).well_formed(),
{
    lemma_operations_well_formed(a, a.current_input, now, StoredView::Missing);
    lemma_page_steps_well_formed(a, Direction::Forward);
    lemma_page_steps_well_formed(a, Direction::Backward);
    lemma_navigate_well_formed(a, Direction::Forward);
    lemma_navigate_well_formed(a, Direction::Backward);
}

/// After any sequence of events the state is well formed: the pages are
/// never empty, the current page index is valid, and the selection fits the
/// current page.
pub proof fn lemma_run_well_formed(a: AppView, events: Seq<(Event, Timestamp)>)
    requires
        a.well_formed(),
    ensures
        a.run(events).well_formed(),
        a.run(events).pages.len() > 0,
        0 <= a.run(events).current_page_index < a.run(events).pages.len(),
        selection_fits(a.run(events).selected, a.run(events).current_todos().len() as int),
    decreases events.len(),
{
    if events.len() > 0 {
        lemma_run_well_formed(a, events.drop_last());
        lemma_apply_well_formed(a.run(events.drop_last()), events.last().0, events.last().1);
    }
}

/// Whatever happens, the flags go on agreeing with the input mode.
pub proof fn lemma_apply_modes_consistent(a: AppView, event: Event, now: Timestamp)
    requires
        a.modes_consistent(),
    ensures
        a.apply(event, now).modes_consistent(),
{
}

/// Toggling the same item twice gives back the pages as they were: the flag
/// has its old value and every item its old place. Only the selection may
/// have moved on, which is why the item is selected again in between.
pub proof fn lemma_toggle_twice(a: AppView)
    requires
        a.well_formed(),
        a.selected is Some,
    ensures
        a.toggle_todo().select_item(a.selected->0).toggle_todo().pages == a.pages,
        a.toggle_todo().pages.len() == a.pages.len(),
        a.toggle_todo().current_todos().len() == a.current_todos().len(),
{
    let i = a.selected->0;
    let once = a.toggle_todo().select_item(i);
    let twice = once.toggle_todo();
    assert(twice.current_todos() =~= a.current_todos());
    assert(twice.pages =~= a.pages);
}

/// Toggling twice in a row gives back the pages as they were wherever the
/// selection stayed on the item: if the item was completed, or is alone on
/// its page.
pub proof fn lemma_toggle_twice_in_place(a: AppView)
    requires
        a.well_formed(),
        a.selected is Some,
        a.current_todos()[a.selected->0].completed || a.current_todos().len() == 1,
    ensures
        a.toggle_todo().toggle_todo().pages == a.pages,
{
    let i = a.selected->0;
    lemma_next_index(i, a.current_todos().len() as int);
    let twice = a.toggle_todo().toggle_todo();
    assert(twice.current_todos() =~= a.current_todos());
    assert(twice.pages =~= a.pages);
}

/// A page whose name is empty or taken is not added: nothing changes.
pub proof fn lemma_add_page_rejected(a: AppView, name: Seq<char>)
    requires
        name.len() == 0 || has_page(a.pages, name),
    ensures
        a.add_page(name) == a,
{
}

/// A page whose name is new and not empty is appended, empty, and becomes the
/// current page; the other pages stay as they are.
pub proof fn lemma_add_page_accepted(a: AppView, name: Seq<char>)
    requires
        name.len() > 0,
        !has_page(a.pages, name),
    ensures
        a.add_page(name).pages == a.pages.push(TodoPageView::empty(name)),
        a.add_page(name).current_page_index == a.pages.len(),
        a.add_page(name).selected == None::<int>,
        a.add_page(name).well_formed(),
{
}

/// Adding a page keeps the names of the pages non-empty and distinct.
pub proof fn lemma_add_page_names_valid(a: AppView, name: Seq<char>)
    requires
        names_valid(a.pages),
    ensures
        names_valid(a.add_page(name).pages),
{
    if name.len() > 0 && !has_page(a.pages, name) {
        let after = a.add_page(name).pages;
        assert forall|i: int, j: int|
            #![trigger after[i], after[j]]
            0 <= i < j < after.len() implies after[i].name != after[j].name by {
            if j == a.pages.len() {
                assert(a.pages[i].name != name);
            } else {
                assert(after[i] == a.pages[i] && after[j] == a.pages[j]);
            }
        }
        assert forall|i: int| #![trigger after[i]] 0 <= i < after.len() implies after[i].name.len()
            > 0 by {
            if i < a.pages.len() {
                assert(after[i] == a.pages[i]);
            }
        }
    }
}

/// The only page cannot be deleted: nothing changes.
pub proof fn lemma_delete_only_page(a: AppView)
    requires
        a.pages.len() <= 1,
    ensures
        a.delete_selected_page() == a,
{
}

/// Deleting one of several pages removes the marked page and no other, and
/// leaves the mark of the selector, the current page and the selected item
/// valid.
pub proof fn lemma_delete_one_of_several_pages(a: AppView)
    requires
        a.well_formed(),
        a.pages.len() > 1,
        a.page_selected is Some,
    ensures
        a.delete_selected_page().pages == a.pages.remove(a.page_selected->0),
        a.delete_selected_page().pages.len() == a.pages.len() - 1,
        a.delete_selected_page().well_formed(),
        a.delete_selected_page().page_selected matches Some(i) && 0 <= i
            < a.delete_selected_page().pages.len(),
        a.delete_selected_page().page_selected == Some(
            a.delete_selected_page().current_page_index,
        ),
{
}

/// Deleting a page keeps the names of the pages non-empty and distinct.
pub proof fn lemma_delete_page_names_valid(a: AppView)
    requires
        a.well_formed(),
        names_valid(a.pages),
    ensures
        names_valid(a.delete_selected_page().pages),
{
    let after = a.delete_selected_page().pages;
    if after != a.pages {
        let k = a.page_selected->0;
        assert forall|i: int, j: int|
            #![trigger after[i], after[j]]
            0 <= i < j < after.len() implies after[i].name != after[j].name by {
            let oi = if i < k { i } else { i + 1 };
            let oj = if j < k { j } else { j + 1 };
            assert(after[i] == a.pages[oi] && after[j] == a.pages[oj]);
        }
        assert forall|i: int| #![trigger after[i]] 0 <= i < after.len() implies after[i].name.len()
            > 0 by {
            let oi = if i < k { i } else { i + 1 };
            assert(after[i] == a.pages[oi]);
        }
    }
}

/// Loading what was stored as a non-empty list of pages gives exactly those
/// pages, in their order, whatever the state was before.
pub proof fn lemma_load_stored_pages(a: AppView, pages: Seq<TodoPageView>)
    requires
        pages.len() > 0,
    ensures
        a.load_todos(StoredView::Pages(pages)).pages == pages,
        a.load_todos(StoredView::Pages(pages)).current_page_index == 0,
        a.load_todos(StoredView::Pages(pages)).well_formed(),
{
}

/// Loading a bare list of items gives exactly one page, named "Default",
/// that holds those items in their order.
pub proof fn lemma_load_legacy_items(a: AppView, todos: Seq<TodoView>)
    ensures
        a.load_todos(StoredView::LegacyItems(todos)).pages.len() == 1,
        a.load_todos(StoredView::LegacyItems(todos)).pages[0].name == "Default"@,
        a.load_todos(StoredView::LegacyItems(todos)).pages[0].todos == todos,
        a.load_todos(StoredView::LegacyItems(todos)).well_formed(),
{
}

/// Whatever was stored, the pages that it stands for are never empty.
pub proof fn lemma_loaded_pages_never_empty(stored: StoredView)
    ensures
        loaded_pages(stored).len() > 0,
{
}

/// Only a request to quit in normal mode ends the session, and it leaves the
/// state as it is.
pub proof fn lemma_quit(a: AppView, event: Event, now: Timestamp)
    ensures
        a.action(event) == Action::SaveAndQuit <==> a.input_mode == InputMode::Normal
            && event == Event::Quit,
        event == Event::Quit ==> a.apply(event, now) == a,
{
}

} // verus!
