//! Grid rows.

use vstd::prelude::*;
use crate::classes::joined;

verus! {

/// How a grid row spreads its columns.
#[derive(Debug, Clone, Copy, PartialEq, Eq, Structural)]
pub enum RowJustify {
    Start,
    Center,
    End,
    Around,
    Between,
}

impl RowJustify {
    /// The value in lower case.
    pub open spec fn name(self) -> Seq<char> {
        match self {
            RowJustify::Start => "start"@,
            RowJustify::Center => "center"@,
            RowJustify::End => "end"@,
            RowJustify::Around => "around"@,
            RowJustify::Between => "between"@,
        }
    }

    /// The value in lower case.
    pub fn as_ref(&self) -> (name: &'static str)
        ensures
            name@ == self.name(),
    {
        match self {
            RowJustify::Start => "start",
            RowJustify::Center => "center",
            RowJustify::End => "end",
            RowJustify::Around => "around",
            RowJustify::Between => "between",
        }
    }
}
/// The class of the justification, if one is given: `justify-content-` and
/// its name.
pub fn get_justify_class(justify: Option<RowJustify>) -> (class: Option<String>)
    ensures
        match class {
            Some(c) => justify.is_some() && c@ == "justify-content"@ + "-"@
                + justify.unwrap().name(),
            None => justify.is_none(),
        },
{
    if let Some(justify) = justify {
        Some(joined("justify-content", "-", justify.as_ref()))
    } else {
        None
    }
}

} // verus!
