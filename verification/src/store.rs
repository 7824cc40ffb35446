//! What is kept between runs, once it has been read and decoded.

use crate::model::StoredView;
use crate::todo::{pages_view, todos_view, Todo, TodoPage};
use vstd::prelude::*;

verus! {

/// What was found where the pages are kept between runs.
pub enum StoredData {
    /// Nothing has been stored yet.
    Missing,
    /// A list of pages.
    Pages(Vec<TodoPage>),
    /// A bare list of items, as stored before there were pages.
    LegacyItems(Vec<Todo>),
    /// Something that is neither.
    Unreadable,
}

impl View for StoredData {
    type V = StoredView;

    open spec fn view(&self) -> StoredView {
        match *self {
            StoredData::Missing => StoredView::Missing,
            StoredData::Pages(pages) => StoredView::Pages(pages_view(pages@)),
            StoredData::LegacyItems(todos) => StoredView::LegacyItems(todos_view(todos@)),
            StoredData::Unreadable => StoredView::Unreadable,
        }
    }
}

} // verus!
