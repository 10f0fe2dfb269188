//! What holds of the four transitions, for every list.
//!
//! The executable operations of [`ToDoList`](crate::list::ToDoList) are each
//! specified as one transition of [`ToDoListView`], so every statement here
//! holds of them as well.

use crate::error::ToDoError;
use crate::model::ToDoItemView;
use crate::model::ToDoListView;
use vstd::prelude::*;

verus! {

/// `add` makes the list longer by exactly one item: the earlier items stay
/// where they were, and the new last item carries the given text and is not
/// done.
pub proof fn add_appends_one_item(list: ToDoListView, text: Seq<char>)
    ensures
        list.add(text).len() == list.len() + 1,
        list.add(text).items.last() == (ToDoItemView { text, done: false }),
        forall|i: int|
            0 <= i < list.len() ==> #[trigger] list.add(text).items[i] == list.items[i],
{
}

/// No transition but `add` makes the list longer: `remove` never does, and
/// `toggle` and `toggle_all` keep the length, whatever the index.
pub proof fn only_add_lengthens(list: ToDoListView, index: int)
    ensures
        list.remove(index).len() <= list.len(),
        list.toggle(index).len() == list.len(),
        list.toggle_all().len() == list.len(),
{
}

/// `remove` with an index in range cuts out exactly that item: the list is
/// shorter by one, the items before the index stay in place, and each item
/// behind it moves down by one.
pub proof fn remove_excises_item(list: ToDoListView, index: int)
    requires
        list.in_range(index),
    ensures
        list.remove(index).len() == list.len() - 1,
        forall|i: int| 0 <= i < index ==> #[trigger] list.remove(index).items[i] == list.items[i],
        forall|i: int|
            index <= i < list.len() - 1 ==> #[trigger] list.remove(index).items[i] == list.items[i
                + 1],
{
}

/// `toggle` with an index in range negates `done` of that item and changes
/// nothing else: not its text, not any other item, not the length.
pub proof fn toggle_flips_one_item(list: ToDoListView, index: int)
    requires
        list.in_range(index),
    ensures
        list.toggle(index).len() == list.len(),
        list.toggle(index).items[index].done == !list.items[index].done,
        list.toggle(index).items[index].text == list.items[index].text,
        forall|i: int|
            0 <= i < list.len() && i != index ==> #[trigger] list.toggle(index).items[i]
                == list.items[i],
{
}

/// Toggling the same item twice gives back the items as they were.
pub proof fn toggle_twice_restores_items(list: ToDoListView, index: int)
    requires
        list.in_range(index),
    ensures
        list.toggle(index).toggle(index).items == list.items,
{
}

/// `toggle_all` gives every item the flag's value and keeps texts and order;
/// a second `toggle_all` right after it gives every item the opposite value
/// and leaves the flag as it was at the start.
pub proof fn toggle_all_twice_alternates(list: ToDoListView)
    ensures
        list.toggle_all().all_marked(list.toggle_all_flag),
        list.toggle_all().toggle_all().all_marked(!list.toggle_all_flag),
        list.toggle_all().toggle_all().toggle_all_flag == list.toggle_all_flag,
        forall|i: int|
            0 <= i < list.len() ==> (#[trigger] list.toggle_all().items[i]).text
                == list.items[i].text,
        forall|i: int|
            0 <= i < list.len() ==> (#[trigger] list.toggle_all().toggle_all().items[i]).text
                == list.items[i].text,
{
}

/// Starting from a flag that is `true`, the first `toggle_all` marks every
/// item done and the second marks every item not done.
pub proof fn toggle_all_twice_marks_then_clears(list: ToDoListView)
    requires
        list.toggle_all_flag,
    ensures
        list.toggle_all().all_marked(true),
        list.toggle_all().toggle_all().all_marked(false),
{
    toggle_all_twice_alternates(list);
}

/// `add`, `remove` and `toggle` each set the flag to `true`, whatever it was
/// and whatever the index, so a `toggle_all` that follows any of them marks
/// every item done.
pub proof fn toggle_all_after_change_marks_all_done(
    list: ToDoListView,
    text: Seq<char>,
    index: int,
)
    ensures
        list.add(text).toggle_all_flag,
        list.remove(index).toggle_all_flag,
        list.toggle(index).toggle_all_flag,
        list.add(text).toggle_all().all_marked(true),
        list.remove(index).toggle_all().all_marked(true),
        list.toggle(index).toggle_all().all_marked(true),
{
}

/// `remove` and `toggle` with an index that names no item, be it negative, the
/// length itself or beyond it, leave the items exactly as they were, and no
/// answer but an error is right for such an index.
pub proof fn out_of_range_index_is_refused(list: ToDoListView, index: int)
    requires
        index < 0 || index >= list.len(),
    ensures
        list.remove(index).items == list.items,
        list.toggle(index).items == list.items,
        forall|result: Result<(), ToDoError>| #[trigger]
            list.answers(index, result) ==> result is Err,
{
}

} // verus!
