//! Object cloning: a clone of the game's options dialog gets the settings entry
//! added to it.
use vstd::prelude::*;
use crate::text::{chars_contain, chars_of, contains_infix};

verus! {

/// Whether a freshly cloned object is an options dialog, by its name.
pub fn is_option_dialog_clone(name: &str) -> (r: bool)
    ensures
        r == contains_infix(name@, "DialogOptionHome"@),
{
    let n = chars_of(name);
    let marker = chars_of("DialogOptionHome");
    chars_contain(&n, &marker)
}

} // verus!
