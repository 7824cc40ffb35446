//! The selection of a list: one of its items, or nothing.

use vstd::prelude::*;

verus! {

/// Which item of a list is selected, if any. The list itself is kept
/// elsewhere; whether the index fits it is for the owner to maintain.
#[derive(Clone, Copy, Debug)]
pub struct Selection {
    pub selected: Option<usize>,
}

impl View for Selection {
    type V = Option<int>;

    open spec fn view(&self) -> Option<int> {
        match self.selected {
            Some(i) => Some(i as int),
            None => None,
        }
    }
}

impl Default for Selection {
    /// Nothing is selected.
    fn default() -> (selection: Selection)
        ensures
            selection@ == None::<int>,
    {
        Selection { selected: None }
    }
}

impl Selection {
    /// Selects the item at `index`, or nothing.
    pub fn select(&mut self, index: Option<usize>)
        ensures
            final(self).selected == index,
    {
        self.selected = index;
    }

    /// The index of the selected item, if any.
    pub fn selected(&self) -> (index: Option<usize>)
        ensures
            index == self.selected,
    {
        self.selected
    }
}

} // verus!
