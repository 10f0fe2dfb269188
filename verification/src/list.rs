//! The to-do list and its operations.

use crate::error::ToDoError;
use crate::item::item_views;
use crate::item::ToDoItem;
use crate::model::ToDoListView;
use vstd::prelude::*;

verus! {

/// An ordered list of to-do items together with the toggle-all flag: the value
/// that the next `toggle_all` gives to every item.
///
/// The order of insertion is the order of display. A new list is empty and its
/// flag is `true`.
#[derive(Debug, Eq)]
pub struct ToDoList {
    items: Vec<ToDoItem>,
    toggle_all_flag: bool,
}

impl View for ToDoList {
    type V = ToDoListView;

    closed spec fn view(&self) -> ToDoListView {
        ToDoListView { items: item_views(self.items@), toggle_all_flag: self.toggle_all_flag }
    }
}

impl PartialEq for ToDoList {
    /// Two lists are equal where they hold equal items in the same order and
    /// have the same flag.
    fn eq(&self, other: &ToDoList) -> (equal: bool) {
        let len: usize = self.items.len();
        if self.toggle_all_flag != other.toggle_all_flag || len != other.items.len() {
            assert(self@.toggle_all_flag != other@.toggle_all_flag || self@.items.len()
                != other@.items.len());
            return false;
        }
        let mut i: usize = 0;
        while i < len
            invariant
                i <= len,
                len == self.items@.len(),
                len == other.items@.len(),
                forall|j: int| 0 <= j < i ==> (#[trigger] self.items@[j])@ == other.items@[j]@,
            decreases len - i,
        {
            if !(self.items[i] == other.items[i]) {
                assert(self@.items[i as int] != other@.items[i as int]);
                return false;
            }
            i += 1;
        }
        assert(self@.items =~= other@.items);
        true
    }
}

impl vstd::std_specs::cmp::PartialEqSpecImpl for ToDoList {
    open spec fn obeys_eq_spec() -> bool {
        true
    }

    open spec fn eq_spec(&self, other: &ToDoList) -> bool {
        self@ == other@
    }
}

impl Clone for ToDoList {
    /// A list of its own with the same items and the same flag.
    fn clone(&self) -> (copy: ToDoList)
        ensures
            copy@ == self@,
    {
        let mut items: Vec<ToDoItem> = Vec::new();
        let len: usize = self.items.len();
        let mut i: usize = 0;
        while i < len
            invariant
                i <= len,
                len == self.items@.len(),
                items@.len() == i,
                forall|j: int| 0 <= j < i ==> (#[trigger] items@[j])@ == self.items@[j]@,
            decreases len - i,
        {
            items.push(self.items[i].clone());
            i += 1;
        }
        ToDoList { items, toggle_all_flag: self.toggle_all_flag }
    }
}

impl ToDoList {
    /// The empty list, with the flag set to `true`.
    pub fn new() -> (list: ToDoList)
        ensures
            list@ == ToDoListView::empty(),
    {
        ToDoList { items: Vec::new(), toggle_all_flag: true }
    }

    /// The number of items.
    pub fn len(&self) -> (n: usize)
        ensures
            n == self@.len(),
    {
        self.items.len()
    }

    /// Whether the list holds no item.
    pub fn is_empty(&self) -> (empty: bool)
        ensures
            empty == (self@.len() == 0),
    {
        self.items.len() == 0
    }

    /// The item at `index`, or `None` where `index` names no item.
    pub fn get(&self, index: usize) -> (found: Option<&ToDoItem>)
        ensures
            match found {
                Some(item) => self@.in_range(index as int) && item@ == self@.items[index as int],
                None => !self@.in_range(index as int),
            },
    {
        if index < self.items.len() {
            Some(&self.items[index])
        } else {
            None
        }
    }

    /// All items, in display order.
    pub fn items(&self) -> (all: &[ToDoItem])
        ensures
            item_views(all@) == self@.items,
    {
        self.items.as_slice()
    }

    /// The value that the next `toggle_all` gives to every item.
    pub fn toggle_all_flag(&self) -> (flag: bool)
        ensures
            flag == self@.toggle_all_flag,
    {
        self.toggle_all_flag
    }

    /// Appends a new item with the given text, not done, and sets the flag to
    /// `true`. Never fails; the text is taken as it is, empty or not.
    pub fn add(&mut self, text: String)
        ensures
            final(self)@ == old(self)@.add(text@),
    {
        self.items.push(ToDoItem::new(text));
        self.toggle_all_flag = true;
    }

    /// Takes out the item at `index`; the items behind it move down by one.
    ///
    /// An index that names no item is reported as
    /// [`ToDoError::IndexOutOfRange`] and the items stay as they are. The flag
    /// is set to `true` by every call, also by one that is refused.
    pub fn remove(&mut self, index: usize) -> (result: Result<(), ToDoError>)
        ensures
            final(self)@ == old(self)@.remove(index as int),
            old(self)@.answers(index as int, result),
    {
        self.toggle_all_flag = true;
        let len: usize = self.items.len();
        if index >= len {
            return Err(ToDoError::IndexOutOfRange { index, len });
        }
        self.items.remove(index);
        Ok(())
    }

    /// Negates `done` of the item at `index` and leaves every other item alone.
    ///
    /// An index that names no item is reported as
    /// [`ToDoError::IndexOutOfRange`] and the items stay as they are. The flag
    /// is set to `true` by every call, also by one that is refused.
    pub fn toggle(&mut self, index: usize) -> (result: Result<(), ToDoError>)
        ensures
            final(self)@ == old(self)@.toggle(index as int),
            old(self)@.answers(index as int, result),
    {
        self.toggle_all_flag = true;
        let len: usize = self.items.len();
        if index >= len {
            return Err(ToDoError::IndexOutOfRange { index, len });
        }
        let item = &mut self.items[index];
        item.done = !item.done;
        Ok(())
    }

    /// Gives every item the value of the flag as its `done`, then negates the
    /// flag: on a fresh flag the first call marks all items done, the second
    /// marks them all not done, and so on.
    pub fn toggle_all(&mut self)
        ensures
            final(self)@ == old(self)@.toggle_all(),
    {
        let mark: bool = self.toggle_all_flag;
        let len: usize = self.items.len();
        let mut i: usize = 0;
        while i < len
            invariant
                i <= len,
                len == self.items@.len(),
                self.toggle_all_flag == mark,
                self.items@.len() == old(self).items@.len(),
                forall|j: int|
                    0 <= j < i ==> (#[trigger] self.items@[j])@ == old(self).items@[j]@.marked(mark),
                forall|j: int| i <= j < len ==> #[trigger] self.items@[j] == old(self).items@[j],
            decreases len - i,
        {
            let item = &mut self.items[i];
            item.done = mark;
            i += 1;
        }
        self.toggle_all_flag = !mark;
    }
}

} // verus!
