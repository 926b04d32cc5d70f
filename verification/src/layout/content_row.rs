//! Content rows.

use vstd::prelude::*;
use vstd::string::StringExecFns;
use crate::classes::joined;

verus! {

/// How the columns of a content row float.
#[derive(Debug, Clone, Copy, PartialEq, Eq, Structural)]
pub enum ContentFloat {
    Boolean(bool),
    SmDown,
    MdDown,
    End,
    EndSmDown,
    EndMdDown,
}

impl ContentFloat {
    /// The value in lower case, its words joined by hyphens.
    pub open spec fn name(self) -> Seq<char> {
        match self {
            ContentFloat::Boolean(_) => "boolean"@,
            ContentFloat::SmDown => "sm-down"@,
            ContentFloat::MdDown => "md-down"@,
            ContentFloat::End => "end"@,
            ContentFloat::EndSmDown => "end-sm-down"@,
            ContentFloat::EndMdDown => "end-md-down"@,
        }
    }

    /// The value in lower case, its words joined by hyphens.
    pub fn as_ref(&self) -> (name: &'static str)
        ensures
            name@ == self.name(),
    {
        match self {
            ContentFloat::Boolean(_) => "boolean",
            ContentFloat::SmDown => "sm-down",
            ContentFloat::MdDown => "md-down",
            ContentFloat::End => "end",
            ContentFloat::EndSmDown => "end-sm-down",
            ContentFloat::EndMdDown => "end-md-down",
        }
    }

    /// The value in lower case, its words joined by hyphens, as an owned string.
    pub fn to_string(&self) -> (text: String)
        ensures
            text@ == self.name(),
    {
        String::from_str(self.as_ref())
    }
}
/// Where a content row drops its gutters.
#[derive(Debug, Clone, Copy, PartialEq, Eq, Structural)]
pub enum ContentNoGutters {
    Sm,
    X,
    Y,
    Boolean(bool),
}

impl ContentNoGutters {
    /// The value in lower case.
    pub open spec fn name(self) -> Seq<char> {
        match self {
            ContentNoGutters::Sm => "sm"@,
            ContentNoGutters::X => "x"@,
            ContentNoGutters::Y => "y"@,
            ContentNoGutters::Boolean(_) => "boolean"@,
        }
    }

    /// The value in lower case.
    pub fn as_ref(&self) -> (name: &'static str)
        ensures
            name@ == self.name(),
    {
        match self {
            ContentNoGutters::Sm => "sm",
            ContentNoGutters::X => "x",
            ContentNoGutters::Y => "y",
            ContentNoGutters::Boolean(_) => "boolean",
        }
    }

    /// The value in lower case, as an owned string.
    pub fn to_string(&self) -> (text: String)
        ensures
            text@ == self.name(),
    {
        String::from_str(self.as_ref())
    }
}
/// How the columns of a content row are aligned vertically.
#[derive(Debug, Clone, Copy, PartialEq, Eq, Structural)]
pub enum ContentVerticalAlign {
    Center,
    End,
}

impl ContentVerticalAlign {
    /// The value in lower case.
    pub open spec fn name(self) -> Seq<char> {
        match self {
            ContentVerticalAlign::Center => "center"@,
            ContentVerticalAlign::End => "end"@,
        }
    }

    /// The value in lower case.
    pub fn as_ref(&self) -> (name: &'static str)
        ensures
            name@ == self.name(),
    {
        match self {
            ContentVerticalAlign::Center => "center",
            ContentVerticalAlign::End => "end",
        }
    }

    /// The value in lower case, as an owned string.
    pub fn to_string(&self) -> (text: String)
        ensures
            text@ == self.name(),
    {
        String::from_str(self.as_ref())
    }
}
/// The float class of a content row: `autofit-float` for `Boolean(true)`,
/// none for `Boolean(false)`, and `autofit-float-` with the value's name for
/// every other value.
pub fn get_float_class(float: &Option<ContentFloat>) -> (class: Option<String>)
    ensures
        match class {
            Some(c) => match *float {
                Some(ContentFloat::Boolean(val)) => val && c@ == "autofit-float"@,
                Some(other) => c@ == "autofit-float"@ + "-"@ + other.name(),
                None => false,
            },
            None => *float == None::<ContentFloat> || *float == Some(ContentFloat::Boolean(false)),
        },
{
    if let Some(float) = float {
        match float {
            ContentFloat::Boolean(val) => match val {
                true => Some(String::from_str("autofit-float")),
                false => None,
            },
            _ => Some(joined("autofit-float", "-", float.as_ref())),
        }
    } else {
        None
    }
}

/// The gutter class of a content row: `autofit-padded-no-gutters` for
/// `Boolean(true)`, none for `Boolean(false)`, and that class with a hyphen
/// and the value's name for every other value.
pub fn get_no_gutters_class(no_gutters: &Option<ContentNoGutters>) -> (class: Option<String>)
    ensures
        match class {
            Some(c) => match *no_gutters {
                Some(ContentNoGutters::Boolean(val)) => val && c@ == "autofit-padded-no-gutters"@,
                Some(other) => c@ == "autofit-padded-no-gutters"@ + "-"@ + other.name(),
                None => false,
            },
            None => *no_gutters == None::<ContentNoGutters> || *no_gutters == Some(
                ContentNoGutters::Boolean(false),
            ),
        },
{
    if let Some(no_gutters) = no_gutters {
        match no_gutters {
            ContentNoGutters::Boolean(val) => match val {
                true => Some(String::from_str("autofit-padded-no-gutters")),
                false => None,
            },
            _ => Some(joined("autofit-padded-no-gutters", "-", no_gutters.as_ref())),
        }
    } else {
        None
    }
}

/// The alignment class of a content row: `autofit-row-` and the alignment.
pub fn get_vertical_align_class(vertical_align: &Option<ContentVerticalAlign>) -> (class: Option<
    String,
>)
    ensures
        match class {
            Some(c) => vertical_align.is_some() && c@ == "autofit-row"@ + "-"@
                + vertical_align.unwrap().name(),
            None => vertical_align.is_none(),
        },
{
    if let Some(vertical_align) = vertical_align {
        Some(joined("autofit-row", "-", vertical_align.as_ref()))
    } else {
        None
    }
}

} // verus!
