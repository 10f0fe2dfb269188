//! The to-do list as a mathematical value, and its four transitions.
//!
//! Everything here is specification: sequences of unbounded length and
//! indices that may be any integer. The executable types state their
//! behaviour in these terms.

use crate::error::ToDoError;
use vstd::prelude::*;

verus! {

/// A to-do item as a value: its text and whether it is done.
pub struct ToDoItemView {
    pub text: Seq<char>,
    pub done: bool,
}

impl ToDoItemView {
    /// The item that `add` creates: the given text, not done.
    pub open spec fn fresh(text: Seq<char>) -> Self {
        ToDoItemView { text, done: false }
    }

    /// The same text with `done` set to the given value.
    pub open spec fn marked(self, done: bool) -> Self {
        ToDoItemView { text: self.text, done }
    }

    /// The same text with `done` negated.
    pub open spec fn toggled(self) -> Self {
        self.marked(!self.done)
    }
}

/// The whole state: the items in display order, and the value that the next
/// `toggle_all` gives to every item.
#[verifier::ext_equal]
pub struct ToDoListView {
    pub items: Seq<ToDoItemView>,
    pub toggle_all_flag: bool,
}

impl ToDoListView {
    /// The state at the start of a session: no items, flag `true`.
    pub open spec fn empty() -> Self {
        ToDoListView { items: Seq::empty(), toggle_all_flag: true }
    }

    /// The number of items.
    pub open spec fn len(self) -> nat {
        self.items.len()
    }

    /// Whether `index` names an item of this list.
    pub open spec fn in_range(self, index: int) -> bool {
        0 <= index < self.items.len()
    }

    /// Whether `result` is what `remove` and `toggle` owe for `index`: `Ok`
    /// where the index names an item, and otherwise the error that carries
    /// the index and the number of items.
    pub open spec fn answers(self, index: int, result: Result<(), ToDoError>) -> bool {
        if self.in_range(index) {
            result == Ok::<(), ToDoError>(())
        } else {
            &&& result matches Err(ToDoError::IndexOutOfRange { index: refused, len })
            &&& refused == index
            &&& len == self.len()
        }
    }

    /// Whether every item's `done` has the given value.
    pub open spec fn all_marked(self, done: bool) -> bool {
        forall|i: int| 0 <= i < self.items.len() ==> (#[trigger] self.items[i]).done == done
    }

    /// A fresh item with the given text is appended; the flag becomes `true`.
    pub open spec fn add(self, text: Seq<char>) -> Self {
        ToDoListView { items: self.items.push(ToDoItemView::fresh(text)), toggle_all_flag: true }
    }

    /// The item at `index` is taken out and the later items move down by one.
    /// An index out of range leaves the items as they are. Either way the flag
    /// becomes `true`.
    pub open spec fn remove(self, index: int) -> Self {
        ToDoListView {
            items: if self.in_range(index) {
                self.items.remove(index)
            } else {
                self.items
            },
            toggle_all_flag: true,
        }
    }

    /// The item at `index` has its `done` negated. An index out of range
    /// leaves the items as they are. Either way the flag becomes `true`.
    pub open spec fn toggle(self, index: int) -> Self {
        ToDoListView {
            items: if self.in_range(index) {
                self.items.update(index, self.items[index].toggled())
            } else {
                self.items
            },
            toggle_all_flag: true,
        }
    }

    /// Every item's `done` becomes the flag; the flag is then negated.
    pub open spec fn toggle_all(self) -> Self {
        ToDoListView {
            items: self.items.map_values(|item: ToDoItemView| item.marked(self.toggle_all_flag)),
            toggle_all_flag: !self.toggle_all_flag,
        }
    }
}

} // verus!
