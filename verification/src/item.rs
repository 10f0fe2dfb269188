//! A single to-do item.

use crate::model::ToDoItemView;
use vstd::prelude::*;

verus! {

/// One entry of a to-do list: a text and a completion mark.
///
/// An item has no identity of its own. Within a list it is known by its
/// position, so removing an earlier item renumbers the later ones. The text is
/// meant to be non-empty, but nothing enforces that.
#[derive(Debug, Eq)]
pub struct ToDoItem {
    pub text: String,
    pub done: bool,
}

impl View for ToDoItem {
    type V = ToDoItemView;

    open spec fn view(&self) -> ToDoItemView {
        ToDoItemView { text: self.text@, done: self.done }
    }
}

impl PartialEq for ToDoItem {
    /// Two items are equal where they have the same text and the same mark.
    fn eq(&self, other: &ToDoItem) -> (equal: bool) {
        self.done == other.done && self.text == other.text
    }
}

impl vstd::std_specs::cmp::PartialEqSpecImpl for ToDoItem {
    open spec fn obeys_eq_spec() -> bool {
        true
    }

    open spec fn eq_spec(&self, other: &ToDoItem) -> bool {
        self@ == other@
    }
}

impl Clone for ToDoItem {
    /// An item of its own with the same text and the same mark.
    fn clone(&self) -> (copy: ToDoItem)
        ensures
            copy@ == self@,
    {
        ToDoItem { text: self.text.clone(), done: self.done }
    }
}

impl ToDoItem {
    /// A new item with the given text, not yet done.
    pub fn new(text: String) -> (item: ToDoItem)
        ensures
            item@ == ToDoItemView::fresh(text@),
    {
        ToDoItem { text, done: false }
    }
}

/// The values of a sequence of items, in the same order.
pub open spec fn item_views(items: Seq<ToDoItem>) -> Seq<ToDoItemView> {
    items.map_values(|item: ToDoItem| item@)
}

} // verus!
