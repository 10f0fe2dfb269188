//! The style classes of the row that shows an item.
//!
//! The classes are kept in a `yew::Classes`, so that a row can hand them to
//! its element as they are. Verus does not look into that type: what it holds
//! is named by [`class_names`], and the two calls into it are trusted to do
//! what their contracts say.

use crate::item::ToDoItem;
use vstd::prelude::*;
use yew::Classes;

verus! {

/// `yew::Classes`: an ordered set of class names. Its contents are opaque
/// here and spoken of through [`class_names`].
#[verifier::external_type_specification]
#[verifier::external_body]
pub struct ExClasses(yew::Classes);

/// The class names that a `yew::Classes` holds, in the order in which it
/// hands them out, which is the order in which they were first put in.
pub uninterp spec fn class_names(classes: Classes) -> Seq<Seq<char>>;

/// The class names that `Classes::from` finds in a text: the pieces between
/// runs of white space, each once, in the order of their first occurrence.
pub uninterp spec fn words_of(text: Seq<char>) -> Seq<Seq<char>>;

/// The names of `held`, followed by those of `more` that `held` lacks.
pub open spec fn joined(held: Seq<Seq<char>>, more: Seq<Seq<char>>) -> Seq<Seq<char>> {
    held + more.filter(|name: Seq<char>| !held.contains(name))
}

/// The names of `held`, with the names of the text `done` joined to them
/// where `done` holds.
pub open spec fn with_done(held: Seq<Seq<char>>, done: bool) -> Seq<Seq<char>> {
    if done {
        joined(held, words_of("done"@))
    } else {
        held
    }
}

/// Calls `Classes::from` on a string slice. Trusted: the set that comes back
/// holds exactly the names that [`words_of`] stands for.
#[verifier::external_body]
fn classes_of(text: &'static str) -> (classes: Classes)
    ensures
        class_names(classes) == words_of(text@),
{
    Classes::from(text)
}

/// Calls `Classes::push` with a string slice. Trusted: the names held before
/// keep their places, and the names of the text that were not yet held follow
/// them in their own order.
#[verifier::external_body]
fn push_classes(classes: &mut Classes, text: &'static str)
    ensures
        class_names(*final(classes)) == joined(class_names(*old(classes)), words_of(text@)),
{
    classes.push(text)
}

/// Adds the class `done` to `classes` where `done` holds, and leaves them as
/// they are where it does not.
pub fn mark_done(classes: &mut Classes, done: bool)
    ensures
        class_names(*final(classes)) == with_done(class_names(*old(classes)), done),
{
    if done {
        push_classes(classes, "done");
    }
}

/// The classes of the row that shows `item`: `todo`, and behind it `done`
/// where the item is done.
pub fn row_classes(item: &ToDoItem) -> (classes: Classes)
    ensures
        class_names(classes) == with_done(words_of("todo"@), item@.done),
{
    let mut classes = classes_of("todo");
    mark_done(&mut classes, item.done);
    classes
}

} // verus!
