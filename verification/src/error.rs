//! The one way in which an operation on a to-do list can fail.

use vstd::prelude::*;

verus! {

/// Why `remove` or `toggle` refused its argument.
#[derive(Clone, Copy, Debug, PartialEq, Eq, Structural)]
pub enum ToDoError {
    /// `index` names no item of a list that holds `len` items.
    IndexOutOfRange { index: usize, len: usize },
}

} // verus!
