//! Sheets.

use vstd::prelude::*;

verus! {

/// The class of a large sheet.
pub fn get_size_class(large: bool) -> (class: Option<&'static str>)
    ensures
        match class {
            Some(c) => large && c@ == "sheet-lg"@,
            None => !large,
        },
{
    if large {
        Some("sheet-lg")
    } else {
        None
    }
}

} // verus!
