//! The state of a to-do list: an ordered list of items, and the value that the
//! next "toggle all" gives to every item.
//!
//! [`ToDoList`] holds the state and offers the four operations that change
//! it: `add`, `remove`, `toggle` and `toggle_all`. What each of them does is
//! stated over the mathematical model in [`model`], and the relations between
//! them are proved in [`laws`]. The modules [`entry`] and [`style`] hold the
//! two small decisions that a page showing the list has to take.

pub mod entry;
pub mod error;
pub mod item;
pub mod laws;
pub mod list;
pub mod model;
pub mod style;

pub use crate::error::ToDoError;
pub use crate::item::ToDoItem;
pub use crate::list::ToDoList;
