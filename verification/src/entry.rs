//! The text entry above the list.

use vstd::prelude::*;

verus! {

/// Whether a key press in the text entry submits what was typed: it does for
/// the key named `Enter` and for no other.
pub fn is_submit_key(key: &str) -> (submit: bool)
    ensures
        submit == (key@ == "Enter"@),
{
    let pressed: String = key.to_owned();
    let enter: String = "Enter".to_owned();
    pressed == enter
}

} // verus!
